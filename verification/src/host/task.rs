//! Tasks and the cooperative scheduler that runs them one at a time.
use crate::api::{link_warnings, Linker, Module};
use crate::host::memory::{le_bytes, u32_to_le_bytes, written, GuestMemory, OutOfBoundsError, SharedMemoryExt};
use crate::host::schedule::{
    candidates, highest_priority, ids_with_priority, is_top, lemma_candidates,
    lemma_candidates_depend_on_priorities, lemma_first_above_is, lemma_next_task_is_candidate,
    lemma_round_robin_is_fair, next_task, picks, sorted_by_id, times_picked,
};
use crate::host::thread_local::TaskStorage;
use crate::interface::{EventView, SimulatorEvent, SimulatorInterface};
use crate::text::{concat, decimal, decimal_string};
use std::collections::HashMap;
use vstd::pervasive::unreached;
use vstd::prelude::*;
use vstd::string::StringExecFns;

verus! {

broadcast use vstd::std_specs::hash::group_hash_axioms;

/// What a task is doing, as the scheduler sees it.
#[derive(Debug, Clone, Copy, PartialEq, Eq, Structural)]
pub enum TaskState {
    /// Executing: this is the current task.
    Running,
    /// Waiting for its turn.
    Ready,
    /// Returned from its entry point.
    Finished,
    /// Waiting for something other than its turn.
    Blocked,
    /// Removed by `task_delete`.
    Deleted,
}

/// Number of priority levels; a priority is below this number.
pub const TASK_PRIORITIES: u32 = 16;

/// The priority of a task that was given none.
pub const TASK_PRIORITY_DEFAULT: u32 = 7;

/// Size in bytes of the cell that holds a task's `errno`.
pub const ERRNO_SIZE: u32 = 4;

/// Alignment in bytes of the cell that holds a task's `errno`.
pub const ERRNO_ALIGN: u32 = 4;

/// Where a task starts executing.
#[derive(Debug, Clone, PartialEq, Eq)]
pub enum TaskEntry {
    /// The function at index `function` of the indirect function table of
    /// robot code, called with `argument`.
    Extern { function: u32, argument: u32 },
    /// The function that robot code exports under this name.
    Global(String),
    /// A routine of the simulator itself, known to it by this number.
    Closure(u32),
}

/// What a new task is made from.
#[derive(Debug)]
pub struct TaskOptions {
    priority: u32,
    entrypoint: TaskEntry,
    name: Option<String>,
}

impl TaskOptions {
    /// The priority that the task will have.
    pub closed spec fn spec_priority(&self) -> u32 {
        self.priority
    }

    /// Where the task will start.
    pub closed spec fn spec_entrypoint(&self) -> TaskEntry {
        self.entrypoint
    }

    /// The name that the task will have, if it was given one.
    pub closed spec fn spec_name(&self) -> Option<String> {
        self.name
    }

    /// Whether the priority is one of the [`TASK_PRIORITIES`] levels.
    pub open spec fn wf(&self) -> bool {
        self.spec_priority() < TASK_PRIORITIES
    }

    /// Options for a task that starts at the function `task_start` of the
    /// indirect function table and passes it `args`.
    pub fn new_extern(task_start: u32, args: u32) -> (opts: Self)
        ensures
            opts.wf(),
            opts.spec_priority() == TASK_PRIORITY_DEFAULT,
            opts.spec_entrypoint() == (TaskEntry::Extern { function: task_start, argument: args }),
            opts.spec_name() is None,
    {
        TaskOptions {
            priority: 7,
            entrypoint: TaskEntry::Extern { function: task_start, argument: args },
            name: None,
        }
    }

    /// Options for a task that runs the routine `task_closure` of the
    /// simulator.
    pub fn new_closure(task_closure: u32) -> (opts: Self)
        ensures
            opts.wf(),
            opts.spec_priority() == TASK_PRIORITY_DEFAULT,
            opts.spec_entrypoint() == TaskEntry::Closure(task_closure),
            opts.spec_name() is None,
    {
        TaskOptions { priority: 7, entrypoint: TaskEntry::Closure(task_closure), name: None }
    }

    /// Options for a task that starts at the function that robot code
    /// exports as `func_name`.
    pub fn new_global(func_name: &str) -> (opts: Self)
        ensures
            opts.wf(),
            opts.spec_priority() == TASK_PRIORITY_DEFAULT,
            opts.spec_entrypoint() matches TaskEntry::Global(n) && n@ == func_name@,
            opts.spec_name() is None,
    {
        TaskOptions {
            priority: 7,
            entrypoint: TaskEntry::Global(String::from_str(func_name)),
            name: None,
        }
    }

    /// The same options with the name `name`.
    pub fn name(self, name: String) -> (opts: Self)
        ensures
            opts.spec_priority() == self.spec_priority(),
            opts.spec_entrypoint() == self.spec_entrypoint(),
            opts.spec_name() == Some(name),
    {
        TaskOptions { priority: self.priority, entrypoint: self.entrypoint, name: Some(name) }
    }

    /// The same options with the priority `priority`.
    pub fn priority(self, priority: u32) -> (opts: Self)
        requires
            priority < TASK_PRIORITIES,
        ensures
            opts.wf(),
            opts.spec_priority() == priority,
            opts.spec_entrypoint() == self.spec_entrypoint(),
            opts.spec_name() == self.spec_name(),
    {
        TaskOptions { priority, entrypoint: self.entrypoint, name: self.name }
    }
}

/// The cell in guest memory that holds the `errno` of one task.
#[derive(Debug, Clone, Copy, PartialEq, Eq, Structural)]
pub struct Errno {
    address: u32,
}

impl Errno {
    /// Address of the cell.
    pub closed spec fn spec_address(&self) -> u32 {
        self.address
    }

    /// Whether the cell lies where the simulator asks the allocator of robot
    /// code to put it: at a multiple of [`ERRNO_ALIGN`].
    pub open spec fn aligned(&self) -> bool {
        self.spec_address() % ERRNO_ALIGN == 0
    }

    /// The cell at `address`.
    pub fn new(address: u32) -> (errno: Self)
        ensures
            errno.spec_address() == address,
    {
        Errno { address }
    }

    /// Address of the cell.
    #[verifier::when_used_as_spec(spec_address)]
    pub fn address(&self) -> (address: u32)
        ensures
            address == self.spec_address(),
    {
        self.address
    }

    /// Writes `new_errno` into the cell, least significant byte first.
    /// Nothing changes where the cell does not lie inside the memory.
    pub fn set(&self, memory: &mut GuestMemory, new_errno: i32) -> (done: Result<(), OutOfBoundsError>)
        ensures
            done is Ok <==> self.address() + 4 <= old(memory)@.len(),
            done is Ok ==> final(memory)@ == written(
                old(memory)@,
                self.address() as int,
                le_bytes(new_errno as u32),
            ),
            done is Err ==> final(memory)@ == old(memory)@,
    {
        let bytes = u32_to_le_bytes(new_errno as u32);
        memory.write_relaxed(self.address as usize, bytes.as_slice())
    }
}

/// One task.
#[derive(Debug)]
pub struct Task {
    /// The handle of the task: unique, from 1 on.
    pub id: u32,
    /// A label for people.
    pub name: String,
    /// The block of thread-local slots, once one was asked for.
    pub local_storage: Option<TaskStorage>,
    /// Higher runs first.
    pub priority: u32,
    /// The `errno` cell, once one was asked for.
    pub errno: Option<Errno>,
    /// Where the task starts.
    pub entry: TaskEntry,
    /// What the task is doing.
    pub state: TaskState,
    /// Whether the task has asked to be deleted at its next yield.
    pub marked_for_delete: bool,
}

/// The name of a task that was given none.
pub open spec fn default_task_name(id: u32) -> Seq<char> {
    "task "@ + decimal(id as nat)
}

impl Task {
    fn new(id: u32, name: String, entry: TaskEntry) -> (task: Self)
        ensures
            task.id == id,
            task.name == name,
            task.local_storage is None,
            task.priority == 0,
            task.errno is None,
            task.entry == entry,
            task.state == TaskState::Ready,
            !task.marked_for_delete,
    {
        Task {
            id,
            name,
            local_storage: None,
            priority: 0,
            errno: None,
            entry,
            state: TaskState::Ready,
            marked_for_delete: false,
        }
    }

    /// The block of thread-local slots of the task. A task that has none
    /// yet takes `fresh`.
    pub fn local_storage(&mut self, fresh: TaskStorage) -> (storage: TaskStorage)
        ensures
            storage == match old(self).local_storage {
                Some(s) => s,
                None => fresh,
            },
            *final(self) == (Task { local_storage: Some(storage), ..*old(self) }),
    {
        match self.local_storage {
            Some(storage) => storage,
            None => {
                self.local_storage = Some(fresh);
                fresh
            },
        }
    }

    /// The `errno` cell of the task. A task that has none yet takes `fresh`.
    pub fn errno(&mut self, fresh: Errno) -> (errno: Errno)
        ensures
            errno == match old(self).errno {
                Some(e) => e,
                None => fresh,
            },
            *final(self) == (Task { errno: Some(errno), ..*old(self) }),
    {
        match self.errno {
            Some(errno) => errno,
            None => {
                self.errno = Some(fresh);
                fresh
            },
        }
    }

    /// The handle of the task.
    pub fn id(&self) -> (id: u32)
        ensures
            id == self.id,
    {
        self.id
    }

    /// Where the task starts executing.
    pub fn start(&self) -> (entry: &TaskEntry)
        ensures
            *entry == self.entry,
    {
        &self.entry
    }

    /// What the task is doing.
    pub fn state(&self) -> (state: TaskState)
        ensures
            state == self.state,
    {
        self.state
    }

    /// Whether the task has returned from its entry point.
    pub fn is_finished(&self) -> (finished: bool)
        ensures
            finished == (self.state == TaskState::Finished),
    {
        match self.state {
            TaskState::Finished => true,
            _ => false,
        }
    }

    /// The label of the task.
    pub fn name(&self) -> (name: &str)
        ensures
            name@ == self.name@,
    {
        self.name.as_str()
    }
}


/// Index in `tasks` of the task with the handle `id`, if there is one.
pub open spec fn index_of(tasks: Seq<Task>, id: u32) -> Option<int> {
    if exists|i: int| 0 <= i < tasks.len() && (#[trigger] tasks[i]).id == id {
        Some(choose|i: int| 0 <= i < tasks.len() && (#[trigger] tasks[i]).id == id)
    } else {
        None
    }
}

/// `rtos_resume_all` was called while the scheduler was not suspended.
#[derive(Debug, Clone, Copy, PartialEq, Eq, Structural)]
pub struct ResumeError;

/// How one poll of the current task ended.
#[derive(Debug)]
pub enum PollOutcome {
    /// The task yielded and wants to go on later.
    Pending,
    /// The task returned from its entry point.
    Finished,
    /// The task trapped.
    Faulted { message: String, backtrace: String },
}

/// What the driver does after a poll has been settled.
#[derive(Debug, Clone, Copy, PartialEq, Eq, Structural)]
pub struct Settled {
    /// The task that was polled is gone: drop what is left of its
    /// execution.
    pub removed: bool,
    /// Robot code has asked to exit: poll no task any more.
    pub stop: bool,
}

/// What the simulator reports of a poll that ended in a trap.
pub open spec fn fault_events(outcome: PollOutcome) -> Seq<EventView> {
    match outcome {
        PollOutcome::Faulted { message, backtrace } => seq![
            EventView::RobotCodeError { message: message@, backtrace: backtrace@ },
        ],
        _ => Seq::empty(),
    }
}

/// The text of the warning about a task that ended while it had the
/// scheduler suspended.
pub open spec fn suspended_exit_warning(name: Seq<char>, id: u32) -> Seq<char> {
    "Task `"@ + name + "` (#"@ + decimal(id as nat) + ") exited with scheduler in suspended state"@
}

/// What settling a poll comes to: the pool `after` and the reports
/// `reported_after` that follow from the pool `before` and the reports
/// `reported` when the poll of the current task ends as `outcome` says.
pub open spec fn poll_settled(
    before: &TaskPool,
    reported: Seq<EventView>,
    outcome: PollOutcome,
    after: &TaskPool,
    reported_after: Seq<EventView>,
    settled: Settled,
) -> bool {
    &&& after.newest_id() == before.newest_id()
    &&& after.current_id() == before.current_id()
    &&& after.yield_pending() == before.yield_pending()
    &&& after.shutdown_pending() == before.shutdown_pending()
    &&& settled.stop == before.shutdown_pending()
    &&& settled.removed == (!before.shutdown_pending() && (!(outcome is Pending)
        || before.current_task().marked_for_delete))
    &&& !settled.removed ==> {
        &&& after.tasks() == before.tasks()
        &&& after.retired() == before.retired()
        &&& after.suspended() == before.suspended()
        &&& reported_after == reported
    }
    &&& settled.removed ==> {
        &&& after.tasks() == before.tasks().remove(
            index_of(before.tasks(), before.current_id().unwrap()).unwrap(),
        )
        &&& after.retired() == before.retired().insert(
            before.current_id().unwrap(),
            if outcome is Pending {
                TaskState::Deleted
            } else {
                TaskState::Finished
            },
        )
        &&& after.suspended() == 0
        &&& reported_after == reported + fault_events(outcome) + if before.suspended() != 0 {
            seq![
                EventView::Warning(
                    suspended_exit_warning(before.current_task().name@, before.current_id().unwrap()),
                ),
            ]
        } else {
            Seq::<EventView>::empty()
        }
    }
}

/// The tasks that are alive, and the scheduler that picks among them.
pub struct TaskPool {
    pool: Vec<Task>,
    retired: HashMap<u32, TaskState>,
    newest_task_id: u32,
    current_task: Option<u32>,
    scheduler_suspended: u32,
    yield_pending: bool,
    shutdown_pending: bool,
}

impl TaskPool {
    /// The tasks that are alive, in the order of their handles.
    pub closed spec fn tasks(&self) -> Seq<Task> {
        self.pool@
    }

    /// The tasks that have left the pool, by handle, each with the way it
    /// ended: finished, if it returned or trapped, or deleted.
    pub closed spec fn retired(&self) -> Map<u32, TaskState> {
        self.retired@
    }

    /// The handle that was given out last; 0 before the first.
    pub closed spec fn newest_id(&self) -> u32 {
        self.newest_task_id
    }

    /// The handle of the task that was picked last, if one was.
    pub closed spec fn current_id(&self) -> Option<u32> {
        self.current_task
    }

    /// How many calls of `suspend_all` still wait for their `resume_all`.
    pub closed spec fn suspended(&self) -> u32 {
        self.scheduler_suspended
    }

    /// Whether a switch of tasks was due while the scheduler was suspended.
    pub closed spec fn yield_pending(&self) -> bool {
        self.yield_pending
    }

    /// Whether robot code has asked to exit.
    pub closed spec fn shutdown_pending(&self) -> bool {
        self.shutdown_pending
    }

    /// The living task with the handle `id`, if there is one.
    pub open spec fn task(&self, id: u32) -> Option<Task> {
        match index_of(self.tasks(), id) {
            Some(i) => Some(self.tasks()[i]),
            None => None,
        }
    }

    /// Whether a task was picked and is still alive.
    pub open spec fn has_current(&self) -> bool {
        self.current_id() matches Some(id) && index_of(self.tasks(), id) is Some
    }

    /// The current task, where [`Self::has_current`] holds.
    pub open spec fn current_task(&self) -> Task {
        self.tasks()[index_of(self.tasks(), self.current_id().unwrap()).unwrap()]
    }

    /// What holds of every pool: handles are unique, increase and were
    /// given out; priorities are in range; a living task is ready unless it
    /// is the current one, which is running; a task that has ended is not
    /// alive, and has finished or was deleted; and the scheduler is
    /// suspended only on behalf of a living current task.
    pub open spec fn wf(&self) -> bool {
        &&& sorted_by_id(self.tasks())
        &&& forall|i: int|
            0 <= i < self.tasks().len() ==> {
                &&& 1 <= (#[trigger] self.tasks()[i]).id <= self.newest_id()
                &&& self.tasks()[i].priority < TASK_PRIORITIES
                &&& (self.tasks()[i].state == TaskState::Running <==> self.current_id() == Some(
                    self.tasks()[i].id,
                ))
                &&& (self.tasks()[i].state == TaskState::Running || self.tasks()[i].state
                    == TaskState::Ready)
                &&& !self.retired().contains_key(self.tasks()[i].id)
            }
        &&& forall|id: u32| #[trigger]
            self.retired().contains_key(id) ==> 1 <= id <= self.newest_id() && (self.retired()[id]
                == TaskState::Finished || self.retired()[id] == TaskState::Deleted)
        &&& self.current_id() matches Some(id) ==> 1 <= id <= self.newest_id()
        &&& self.suspended() > 0 ==> self.has_current()
    }

    /// A pool without tasks.
    pub fn new() -> (pool: Self)
        ensures
            pool.wf(),
            pool.tasks() == Seq::<Task>::empty(),
            pool.retired() == Map::<u32, TaskState>::empty(),
            pool.newest_id() == 0,
            pool.current_id() is None,
            pool.suspended() == 0,
            !pool.yield_pending(),
            !pool.shutdown_pending(),
    {
        TaskPool {
            pool: Vec::new(),
            retired: HashMap::new(),
            newest_task_id: 0,
            current_task: None,
            scheduler_suspended: 0,
            yield_pending: false,
            shutdown_pending: false,
        }
    }

    /// Index in the pool of the task with the handle `task_id`.
    fn position(&self, task_id: u32) -> (found: Option<usize>)
        requires
            sorted_by_id(self.tasks()),
        ensures
            match found {
                Some(i) => index_of(self.tasks(), task_id) == Some(i as int) && i < self.tasks().len()
                    && self.tasks()[i as int].id == task_id,
                None => index_of(self.tasks(), task_id) is None,
            },
    {
        let mut i: usize = 0;
        while i < self.pool.len()
            invariant
                sorted_by_id(self.tasks()),
                i <= self.pool@.len(),
                forall|j: int| 0 <= j < i ==> (#[trigger] self.pool@[j]).id != task_id,
            decreases self.pool@.len() - i,
        {
            if self.pool[i].id == task_id {
                proof {
                    assert(self.tasks()[i as int].id == task_id);
                    let k = choose|k: int|
                        0 <= k < self.tasks().len() && (#[trigger] self.tasks()[k]).id == task_id;
                    if k < i {
                        assert(self.tasks()[k].id < self.tasks()[i as int].id);
                    }
                    if k > i {
                        assert(self.tasks()[i as int].id < self.tasks()[k].id);
                    }
                }
                return Some(i);
            }
            i = i + 1;
        }
        None
    }

    /// Index in the pool of the current task.
    fn current_position(&self) -> (i: usize)
        requires
            sorted_by_id(self.tasks()),
            self.has_current(),
        ensures
            i < self.tasks().len(),
            index_of(self.tasks(), self.current_id().unwrap()) == Some(i as int),
            self.tasks()[i as int].id == self.current_id().unwrap(),
    {
        let id = match self.current_task {
            Some(id) => id,
            None => unreached(),
        };
        match self.position(id) {
            Some(i) => i,
            None => unreached(),
        }
    }

    /// Creates a task from `opts` that runs the robot code `module`. The
    /// module is linked against what `linker` offers: each import that the
    /// simulator does not offer is warned of. The task gets the next
    /// handle, starts out ready and becomes the last of the pool. `None`,
    /// and nothing happens, where every handle has been given out.
    pub fn spawn(
        &mut self,
        opts: TaskOptions,
        linker: &Linker,
        module: &Module,
        interface: &mut SimulatorInterface,
    ) -> (handle: Option<u32>)
        requires
            old(self).wf(),
            opts.wf(),
        ensures
            final(self).wf(),
            handle is Some <==> old(self).newest_id() < u32::MAX,
            handle is None ==> *final(self) == *old(self) && *final(interface) == *old(interface),
            handle matches Some(id) ==> {
                &&& id == old(self).newest_id() + 1
                &&& final(self).newest_id() == id
                &&& final(self).tasks().len() == old(self).tasks().len() + 1
                &&& final(self).tasks().drop_last() == old(self).tasks()
                &&& final(self).tasks().last().id == id
                &&& final(self).tasks().last().name@ == match opts.spec_name() {
                    Some(name) => name@,
                    None => default_task_name(id),
                }
                &&& final(self).tasks().last().priority == opts.spec_priority()
                &&& final(self).tasks().last().entry == opts.spec_entrypoint()
                &&& final(self).tasks().last().state == TaskState::Ready
                &&& final(self).tasks().last().errno is None
                &&& final(self).tasks().last().local_storage is None
                &&& !final(self).tasks().last().marked_for_delete
                &&& final(interface)@ == old(interface)@ + link_warnings(linker@, module.imports@)
            },
            final(self).retired() == old(self).retired(),
            final(self).current_id() == old(self).current_id(),
            final(self).suspended() == old(self).suspended(),
            final(self).yield_pending() == old(self).yield_pending(),
            final(self).shutdown_pending() == old(self).shutdown_pending(),
            old(self).has_current() ==> final(self).has_current(),
    {
        if self.newest_task_id == u32::MAX {
            return None;
        }
        let _ = Self::instantiate(linker, &module.imports, interface);
        let id = self.newest_task_id + 1;
        let TaskOptions { priority, entrypoint, name } = opts;
        let name = match name {
            Some(name) => name,
            None => concat("task ", decimal_string(id).as_str()),
        };
        let mut task = Task::new(id, name, entrypoint);
        task.priority = priority;
        self.newest_task_id = id;
        self.pool.push(task);
        proof {
            let before = old(self).tasks();
            let after = self.tasks();
            assert(after.drop_last() =~= before);
            assert forall|i: int, j: int| 0 <= i < j < after.len() implies after[i].id
                < after[j].id by {
                if j < before.len() {
                    assert(after[i] == before[i] && after[j] == before[j]);
                } else {
                    assert(after[i] == before[i]);
                }
            }
            assert forall|i: int| 0 <= i < after.len() implies {
                &&& 1 <= (#[trigger] after[i]).id <= self.newest_id()
                &&& after[i].priority < TASK_PRIORITIES
                &&& (after[i].state == TaskState::Running <==> self.current_id() == Some(after[i].id))
                &&& (after[i].state == TaskState::Running || after[i].state == TaskState::Ready)
                &&& !self.retired().contains_key(after[i].id)
            } by {
                if i < before.len() {
                    assert(after[i] == before[i]);
                } else {
                    assert(!old(self).retired().contains_key(id));
                }
            }
            if old(self).has_current() {
                let c = old(self).current_id().unwrap();
                let k = index_of(before, c).unwrap();
                assert(after[k] == before[k]);
            }
        }
        Some(id)
    }

    /// The living task with the handle `task_id`; the handle 0 stands for
    /// the current task.
    pub fn by_id(&self, task_id: u32) -> (found: Option<&Task>)
        requires
            self.wf(),
        ensures
            task_id != 0 ==> match found {
                Some(t) => self.task(task_id) == Some(*t),
                None => self.task(task_id) is None,
            },
            task_id == 0 ==> match found {
                Some(t) => self.has_current() && *t == self.current_task(),
                None => !self.has_current(),
            },
    {
        let id = if task_id == 0 {
            match self.current_task {
                Some(id) => id,
                None => {
                    return None;
                },
            }
        } else {
            task_id
        };
        match self.position(id) {
            Some(i) => Some(&self.pool[i]),
            None => None,
        }
    }

    /// The current task. May be asked only while a task is being executed.
    pub fn current(&self) -> (task: &Task)
        requires
            self.wf(),
            self.has_current(),
        ensures
            *task == self.current_task(),
            task.state == TaskState::Running,
    {
        &self.pool[self.current_position()]
    }

    /// Whether a task was picked and is still alive.
    pub fn is_running_task(&self) -> (live: bool)
        requires
            self.wf(),
        ensures
            live == self.has_current(),
    {
        match self.current_task {
            Some(id) => self.position(id).is_some(),
            None => false,
        }
    }

    /// Whether every handle has been given out.
    pub fn newest_id_reached_limit(&self) -> (reached: bool)
        ensures
            reached == (self.newest_id() == u32::MAX),
    {
        self.newest_task_id == u32::MAX
    }

    /// How many calls of `suspend_all` still wait for their `resume_all`.
    pub fn suspend_count(&self) -> (count: u32)
        ensures
            count == self.suspended(),
    {
        self.scheduler_suspended
    }

    /// Whether robot code has asked to exit.
    pub fn is_shutting_down(&self) -> (pending: bool)
        ensures
            pending == self.shutdown_pending(),
    {
        self.shutdown_pending
    }

    /// Keeps the scheduler from switching tasks until `resume_all` has been
    /// called as often as this.
    pub fn suspend_all(&mut self)
        requires
            old(self).wf(),
            old(self).has_current(),
            old(self).suspended() < u32::MAX,
        ensures
            final(self).wf(),
            final(self).suspended() == old(self).suspended() + 1,
            final(self).tasks() == old(self).tasks(),
            final(self).retired() == old(self).retired(),
            final(self).newest_id() == old(self).newest_id(),
            final(self).current_id() == old(self).current_id(),
            final(self).yield_pending() == old(self).yield_pending(),
            final(self).shutdown_pending() == old(self).shutdown_pending(),
    {
        self.scheduler_suspended = self.scheduler_suspended + 1;
    }

    /// Takes back one `suspend_all`. `Ok(true)` says that this was the last
    /// one and that a switch of tasks became due meanwhile: the caller
    /// yields at once. An error, and nothing changes, where the scheduler
    /// is not suspended.
    pub fn resume_all(&mut self) -> (yields: Result<bool, ResumeError>)
        requires
            old(self).wf(),
        ensures
            final(self).wf(),
            yields is Err <==> old(self).suspended() == 0,
            yields matches Ok(y) ==> y == (old(self).yield_pending() && old(self).suspended() == 1),
            final(self).suspended() == if old(self).suspended() == 0 {
                0
            } else {
                old(self).suspended() - 1
            },
            final(self).tasks() == old(self).tasks(),
            final(self).retired() == old(self).retired(),
            final(self).newest_id() == old(self).newest_id(),
            final(self).current_id() == old(self).current_id(),
            final(self).yield_pending() == old(self).yield_pending(),
            final(self).shutdown_pending() == old(self).shutdown_pending(),
    {
        if self.scheduler_suspended == 0 {
            return Err(ResumeError);
        }
        self.scheduler_suspended = self.scheduler_suspended - 1;
        Ok(self.yield_pending && self.scheduler_suspended == 0)
    }

    /// The handles of the tasks of the highest priority, in increasing
    /// order.
    pub fn highest_priority_task_ids(&self) -> (ids: Vec<u32>)
        ensures
            ids@ == candidates(self.tasks()),
    {
        let n = self.pool.len();
        let mut top: u32 = 0;
        let mut i: usize = 0;
        while i < n
            invariant
                n == self.pool@.len(),
                i <= n,
                top == highest_priority(self.pool@.subrange(0, i as int)),
            decreases n - i,
        {
            proof {
                assert(self.pool@.subrange(0, i + 1).drop_last() =~= self.pool@.subrange(0, i as int));
            }
            if self.pool[i].priority > top {
                top = self.pool[i].priority;
            }
            i = i + 1;
        }
        assert(self.pool@.subrange(0, n as int) =~= self.pool@);
        let mut ids: Vec<u32> = Vec::new();
        let mut i: usize = 0;
        while i < n
            invariant
                n == self.pool@.len(),
                i <= n,
                ids@ == ids_with_priority(self.pool@.subrange(0, i as int), top),
            decreases n - i,
        {
            proof {
                assert(self.pool@.subrange(0, i + 1).drop_last() =~= self.pool@.subrange(0, i as int));
            }
            if self.pool[i].priority == top {
                ids.push(self.pool[i].id);
            }
            i = i + 1;
        }
        ids
    }

    /// Picks the task that runs next and says whether there is one.
    ///
    /// While the scheduler is suspended the current task stays, and the
    /// switch is remembered as pending. Otherwise the tasks of the highest
    /// priority take turns in the order of their handles: the next is the
    /// first whose handle lies above that of the current task, or the first
    /// of all where none does. It becomes the running task; every other
    /// task is ready.
    pub fn cycle_tasks(&mut self) -> (running: bool)
        requires
            old(self).wf(),
        ensures
            final(self).wf(),
            final(self).retired() == old(self).retired(),
            final(self).newest_id() == old(self).newest_id(),
            final(self).suspended() == old(self).suspended(),
            final(self).shutdown_pending() == old(self).shutdown_pending(),
            final(self).tasks().len() == old(self).tasks().len(),
            candidates(final(self).tasks()) == candidates(old(self).tasks()),
            old(self).suspended() > 0 ==> {
                &&& running
                &&& final(self).yield_pending()
                &&& final(self).current_id() == old(self).current_id()
                &&& final(self).tasks() == old(self).tasks()
            },
            old(self).suspended() == 0 ==> {
                &&& !final(self).yield_pending()
                &&& final(self).current_id() == next_task(
                    candidates(old(self).tasks()),
                    match old(self).current_id() {
                        Some(id) => id,
                        None => 0,
                    },
                )
                &&& running == final(self).current_id() is Some
                &&& forall|i: int|
                    0 <= i < old(self).tasks().len() ==> #[trigger] final(self).tasks()[i] == (Task {
                        state: if final(self).current_id() == Some(old(self).tasks()[i].id) {
                            TaskState::Running
                        } else {
                            TaskState::Ready
                        },
                        ..old(self).tasks()[i]
                    })
            },
            running ==> final(self).has_current(),
            running && old(self).suspended() == 0 ==> is_top(
                final(self).tasks(),
                final(self).current_task().priority,
            ),
    {
        if self.scheduler_suspended != 0 {
            self.yield_pending = true;
            return true;
        }
        self.yield_pending = false;
        let next = self.pick_next();
        self.current_task = next;
        self.mark_running(next);
        proof {
            let before = old(self).tasks();
            let after = self.tasks();
            lemma_candidates_depend_on_priorities(before, after);
            assert forall|i: int, j: int| 0 <= i < j < after.len() implies after[i].id
                < after[j].id by {
                assert(after[i].id == before[i].id && after[j].id == before[j].id);
            }
            assert forall|i: int| 0 <= i < after.len() implies {
                &&& 1 <= (#[trigger] after[i]).id <= self.newest_id()
                &&& after[i].priority < TASK_PRIORITIES
                &&& (after[i].state == TaskState::Running <==> self.current_id() == Some(after[i].id))
                &&& (after[i].state == TaskState::Running || after[i].state == TaskState::Ready)
                &&& !self.retired().contains_key(after[i].id)
            } by {
                assert(after[i].id == before[i].id && after[i].priority == before[i].priority);
            }
            if let Some(id) = next {
                let c = choose|c: int|
                    0 <= c < before.len() && (#[trigger] before[c]).id == id && is_top(
                        before,
                        before[c].priority,
                    );
                assert(after[c].id == id);
                let m = index_of(after, id).unwrap();
                assert(after[m].id == before[m].id);
                if m < c {
                    assert(before[m].id < before[c].id);
                }
                if c < m {
                    assert(before[c].id < before[m].id);
                }
                assert forall|j: int| 0 <= j < after.len() implies (#[trigger] after[j]).priority
                    <= after[c].priority by {
                    assert(after[j].priority == before[j].priority);
                }
            }
        }
        next.is_some()
    }

    /// The task that follows the current one among the tasks of the highest
    /// priority.
    fn pick_next(&self) -> (next: Option<u32>)
        ensures
            next == next_task(
                candidates(self.tasks()),
                match self.current_id() {
                    Some(id) => id,
                    None => 0,
                },
            ),
            next matches Some(id) ==> exists|c: int|
                0 <= c < self.tasks().len() && (#[trigger] self.tasks()[c]).id == id && is_top(
                    self.tasks(),
                    self.tasks()[c].priority,
                ),
    {
        let ids = self.highest_priority_task_ids();
        let current_task_id = match self.current_task {
            Some(id) => id,
            None => 0,
        };
        let mut k: usize = 0;
        while k < ids.len() && ids[k] <= current_task_id
            invariant
                k <= ids@.len(),
                forall|j: int| 0 <= j < k ==> ids@[j] <= current_task_id,
            decreases ids@.len() - k,
        {
            k = k + 1;
        }
        proof {
            lemma_first_above_is(ids@, current_task_id, k as int);
            lemma_candidates(self.tasks());
            lemma_next_task_is_candidate(ids@, current_task_id);
        }
        if ids.len() == 0 {
            None
        } else if k < ids.len() {
            Some(ids[k])
        } else {
            Some(ids[0])
        }
    }

    /// Makes `next` the running task and every other task ready.
    fn mark_running(&mut self, next: Option<u32>)
        ensures
            final(self).retired() == old(self).retired(),
            final(self).newest_id() == old(self).newest_id(),
            final(self).current_id() == old(self).current_id(),
            final(self).suspended() == old(self).suspended(),
            final(self).yield_pending() == old(self).yield_pending(),
            final(self).shutdown_pending() == old(self).shutdown_pending(),
            final(self).tasks().len() == old(self).tasks().len(),
            forall|i: int|
                0 <= i < old(self).tasks().len() ==> #[trigger] final(self).tasks()[i] == (Task {
                    state: if next == Some(old(self).tasks()[i].id) {
                        TaskState::Running
                    } else {
                        TaskState::Ready
                    },
                    ..old(self).tasks()[i]
                }),
    {
        let n = self.pool.len();
        let mut i: usize = 0;
        while i < n
            invariant
                n == self.pool@.len(),
                n == old(self).pool@.len(),
                i <= n,
                self.current_task == old(self).current_task,
                self.retired == old(self).retired,
                self.newest_task_id == old(self).newest_task_id,
                self.scheduler_suspended == old(self).scheduler_suspended,
                self.yield_pending == old(self).yield_pending,
                self.shutdown_pending == old(self).shutdown_pending,
                forall|j: int|
                    0 <= j < i ==> #[trigger] self.pool@[j] == (Task {
                        state: if next == Some(old(self).pool@[j].id) {
                            TaskState::Running
                        } else {
                            TaskState::Ready
                        },
                        ..old(self).pool@[j]
                    }),
                forall|j: int| i <= j < n ==> #[trigger] self.pool@[j] == old(self).pool@[j],
            decreases n - i,
        {
            let state = if next == Some(self.pool[i].id) {
                TaskState::Running
            } else {
                TaskState::Ready
            };
            self.pool[i].state = state;
            i = i + 1;
        }
    }

    /// The state of the task `task_id`: ready or running while it is alive,
    /// deleted once it has left the pool, whether it returned, trapped or
    /// was deleted; and `None` if there never was such a task.
    pub fn task_state(&self, task_id: u32) -> (state: Option<TaskState>)
        requires
            self.wf(),
        ensures
            state == if self.retired().contains_key(task_id) {
                Some(TaskState::Deleted)
            } else {
                match self.task(task_id) {
                    Some(t) => Some(t.state),
                    None => None,
                }
            },
    {
        if self.retired.contains_key(&task_id) {
            Some(TaskState::Deleted)
        } else {
            match self.position(task_id) {
                Some(i) => Some(self.pool[i].state),
                None => None,
            }
        }
    }

    /// Whether the task `task_id` has left the pool because it came to its
    /// end: it returned from its entry point or trapped. A task that was
    /// deleted has not finished, nor has one that is alive or never was.
    pub fn has_finished(&self, task_id: u32) -> (finished: bool)
        ensures
            finished == (self.retired().contains_key(task_id) && self.retired()[task_id]
                == TaskState::Finished),
    {
        match self.retired.get(&task_id) {
            Some(TaskState::Finished) => true,
            _ => false,
        }
    }

    /// Deletes the task `task_id`, if it is alive, and says whether the
    /// caller must yield. The running task is only marked: it yields and the
    /// scheduler removes it without resuming it. Any other task is removed
    /// at once. A task that has left the pool answers as deleted from then
    /// on.
    pub fn delete_task(&mut self, task_id: u32) -> (must_yield: bool)
        requires
            old(self).wf(),
        ensures
            final(self).wf(),
            final(self).newest_id() == old(self).newest_id(),
            final(self).current_id() == old(self).current_id(),
            final(self).suspended() == old(self).suspended(),
            final(self).yield_pending() == old(self).yield_pending(),
            final(self).shutdown_pending() == old(self).shutdown_pending(),
            old(self).has_current() ==> final(self).has_current(),
            match index_of(old(self).tasks(), task_id) {
                None => {
                    &&& !must_yield
                    &&& final(self).tasks() == old(self).tasks()
                    &&& final(self).retired() == old(self).retired()
                },
                Some(i) => if old(self).tasks()[i].state == TaskState::Running {
                    &&& must_yield
                    &&& final(self).tasks() == old(self).tasks().update(
                        i,
                        Task { marked_for_delete: true, ..old(self).tasks()[i] },
                    )
                    &&& final(self).retired() == old(self).retired()
                } else {
                    &&& !must_yield
                    &&& final(self).tasks() == old(self).tasks().remove(i)
                    &&& final(self).retired() == old(self).retired().insert(task_id, TaskState::Deleted)
                },
            },
    {
        match self.position(task_id) {
            None => false,
            Some(i) => {
                if self.pool[i].state == TaskState::Running {
                    self.pool[i].marked_for_delete = true;
                    proof {
                        let before = old(self).tasks();
                        let after = self.tasks();
                        assert(after =~= before.update(
                            i as int,
                            Task { marked_for_delete: true, ..before[i as int] },
                        ));
                        assert forall|a: int, b: int| 0 <= a < b < after.len() implies after[a].id
                            < after[b].id by {
                            assert(after[a].id == before[a].id && after[b].id == before[b].id);
                        }
                        assert forall|j: int| 0 <= j < after.len() implies {
                            &&& 1 <= (#[trigger] after[j]).id <= self.newest_id()
                            &&& after[j].priority < TASK_PRIORITIES
                            &&& (after[j].state == TaskState::Running <==> self.current_id() == Some(
                                after[j].id,
                            ))
                            &&& (after[j].state == TaskState::Running || after[j].state
                                == TaskState::Ready)
                            &&& !self.retired().contains_key(after[j].id)
                        } by {
                            assert(after[j].id == before[j].id && after[j].state == before[j].state);
                        }
                        if old(self).has_current() {
                            let c = index_of(before, old(self).current_id().unwrap()).unwrap();
                            assert(after[c].id == before[c].id);
                        }
                    }
                    true
                } else {
                    let ghost before = self.pool@;
                    let _ = self.pool.remove(i);
                    let _ = self.retired.insert(task_id, TaskState::Deleted);
                    proof {
                        let after = self.tasks();
                        lemma_remove_keeps_order(before, i as int);
                        assert forall|j: int| 0 <= j < after.len() implies {
                            &&& 1 <= (#[trigger] after[j]).id <= self.newest_id()
                            &&& after[j].priority < TASK_PRIORITIES
                            &&& (after[j].state == TaskState::Running <==> self.current_id() == Some(
                                after[j].id,
                            ))
                            &&& (after[j].state == TaskState::Running || after[j].state
                                == TaskState::Ready)
                            &&& !self.retired().contains_key(after[j].id)
                        } by {
                            if j < i {
                                assert(after[j] == before[j]);
                                assert(before[j].id < before[i as int].id);
                            } else {
                                assert(after[j] == before[j + 1]);
                                assert(before[i as int].id < before[j + 1].id);
                            }
                        }
                        if old(self).has_current() {
                            let c = index_of(before, old(self).current_id().unwrap()).unwrap();
                            assert(before[c].state == TaskState::Running);
                            if c < i {
                                assert(after[c] == before[c]);
                            } else {
                                assert(after[c - 1] == before[c]);
                            }
                        }
                    }
                    false
                }
            },
        }
    }

    /// Settles the poll of the current task that has just returned, and
    /// tells the driver how to go on.
    ///
    /// Once robot code has asked to exit the driver stops, and nothing else
    /// happens. Otherwise a task that returned or trapped has finished, and
    /// a task that yielded after it had asked for its own deletion is
    /// deleted: either way it leaves the pool, how it ended is kept, and
    /// the scheduler is no longer suspended. A trap is reported, and so is a
    /// task that ends while it has the scheduler suspended.
    pub fn after_poll(&mut self, interface: &mut SimulatorInterface, outcome: PollOutcome) -> (settled:
        Settled)
        requires
            old(self).wf(),
            old(self).has_current(),
        ensures
            final(self).wf(),
            poll_settled(old(self), old(interface)@, outcome, final(self), final(interface)@, settled),
    {
        if self.shutdown_pending {
            return Settled { removed: false, stop: true };
        }
        let i = self.current_position();
        let id = self.pool[i].id;
        let ghost before = self.pool@;
        let ghost events = interface@;
        let state = match outcome {
            PollOutcome::Pending => {
                if !self.pool[i].marked_for_delete {
                    return Settled { removed: false, stop: false };
                }
                assert(interface@ =~= events + fault_events(outcome));
                TaskState::Deleted
            },
            PollOutcome::Finished => {
                assert(interface@ =~= events + fault_events(outcome));
                TaskState::Finished
            },
            PollOutcome::Faulted { message, backtrace } => {
                interface.send(SimulatorEvent::RobotCodeError { message, backtrace });
                assert(interface@ =~= events + fault_events(outcome));
                TaskState::Finished
            },
        };
        let task = self.pool.remove(i);
        let _ = self.retired.insert(id, state);
        if self.scheduler_suspended != 0 {
            let mut text = concat("Task `", task.name.as_str());
            text.append("` (#");
            text.append(decimal_string(id).as_str());
            text.append(") exited with scheduler in suspended state");
            assert(text@ =~= suspended_exit_warning(task.name@, id));
            interface.send(SimulatorEvent::Warning(text));
        }
        self.scheduler_suspended = 0;
        proof {
            let after = self.tasks();
            lemma_remove_keeps_order(before, i as int);
            assert forall|j: int| 0 <= j < after.len() implies {
                &&& 1 <= (#[trigger] after[j]).id <= self.newest_id()
                &&& after[j].priority < TASK_PRIORITIES
                &&& (after[j].state == TaskState::Running <==> self.current_id() == Some(after[j].id))
                &&& (after[j].state == TaskState::Running || after[j].state == TaskState::Ready)
                &&& !self.retired().contains_key(after[j].id)
            } by {
                if j < i {
                    assert(after[j] == before[j]);
                    assert(before[j].id < before[i as int].id);
                } else {
                    assert(after[j] == before[j + 1]);
                    assert(before[i as int].id < before[j + 1].id);
                }
            }
            assert(interface@ =~= events + fault_events(outcome) + if old(self).suspended() != 0 {
                seq![EventView::Warning(suspended_exit_warning(task.name@, id))]
            } else {
                Seq::<EventView>::empty()
            });
        }
        Settled { removed: true, stop: false }
    }

    /// The `errno` cell of the current task, if it has one yet.
    pub fn current_errno(&self) -> (errno: Option<Errno>)
        requires
            self.wf(),
            self.has_current(),
        ensures
            errno == self.current_task().errno,
    {
        self.current().errno
    }

    /// The `errno` cell of the current task. A task that has none yet takes
    /// `fresh`. No other task changes.
    pub fn errno(&mut self, fresh: Errno) -> (errno: Errno)
        requires
            old(self).wf(),
            old(self).has_current(),
        ensures
            final(self).wf(),
            final(self).has_current(),
            errno == match old(self).current_task().errno {
                Some(e) => e,
                None => fresh,
            },
            final(self).tasks() == old(self).tasks().update(
                index_of(old(self).tasks(), old(self).current_id().unwrap()).unwrap(),
                Task { errno: Some(errno), ..old(self).current_task() },
            ),
            final(self).retired() == old(self).retired(),
            final(self).newest_id() == old(self).newest_id(),
            final(self).current_id() == old(self).current_id(),
            final(self).suspended() == old(self).suspended(),
            final(self).yield_pending() == old(self).yield_pending(),
            final(self).shutdown_pending() == old(self).shutdown_pending(),
    {
        let i = self.current_position();
        let errno = self.pool[i].errno(fresh);
        proof {
            self.lemma_same_but(old(self), i as int);
        }
        errno
    }

    /// The block of thread-local slots of the task `task_handle`, if it has
    /// one yet; the handle 0 stands for the current task. The outer `None`
    /// says that no such task is alive.
    pub fn local_storage_of(&self, task_handle: u32) -> (storage: Option<Option<TaskStorage>>)
        requires
            self.wf(),
        ensures
            storage == match self.resolve(task_handle) {
                Some(t) => Some(t.local_storage),
                None => None,
            },
    {
        match self.by_id(task_handle) {
            Some(task) => Some(task.local_storage),
            None => None,
        }
    }

    /// The living task that `task_handle` names; the handle 0 stands for the
    /// current task.
    pub open spec fn resolve(&self, task_handle: u32) -> Option<Task> {
        if task_handle == 0 {
            if self.has_current() {
                Some(self.current_task())
            } else {
                None
            }
        } else {
            self.task(task_handle)
        }
    }

    /// The block of thread-local slots of the task `task_handle`; the
    /// handle 0 stands for the current task. A task that has none yet takes
    /// `fresh`. `None`, and nothing changes, where no such task is alive.
    pub fn local_storage(&mut self, task_handle: u32, fresh: TaskStorage) -> (storage: Option<
        TaskStorage,
    >)
        requires
            old(self).wf(),
        ensures
            final(self).wf(),
            old(self).has_current() ==> final(self).has_current(),
            storage == match old(self).resolve(task_handle) {
                Some(t) => Some(
                    match t.local_storage {
                        Some(s) => s,
                        None => fresh,
                    },
                ),
                None => None,
            },
            match old(self).resolve(task_handle) {
                Some(t) => final(self).tasks() == old(self).tasks().update(
                    index_of(old(self).tasks(), t.id).unwrap(),
                    Task { local_storage: storage, ..t },
                ),
                None => final(self).tasks() == old(self).tasks(),
            },
            final(self).retired() == old(self).retired(),
            final(self).newest_id() == old(self).newest_id(),
            final(self).current_id() == old(self).current_id(),
            final(self).suspended() == old(self).suspended(),
            final(self).yield_pending() == old(self).yield_pending(),
            final(self).shutdown_pending() == old(self).shutdown_pending(),
    {
        let id = if task_handle == 0 {
            match self.current_task {
                Some(id) => id,
                None => {
                    return None;
                },
            }
        } else {
            task_handle
        };
        match self.position(id) {
            None => None,
            Some(i) => {
                let storage = self.pool[i].local_storage(fresh);
                proof {
                    self.lemma_same_but(old(self), i as int);
                }
                Some(storage)
            },
        }
    }

    /// A pool stays well-formed when one task changes in nothing that the
    /// scheduler looks at.
    proof fn lemma_same_but(&self, before: &Self, i: int)
        requires
            before.wf(),
            0 <= i < before.tasks().len(),
            self.tasks().len() == before.tasks().len(),
            forall|j: int| 0 <= j < before.tasks().len() && j != i ==> self.tasks()[j] == before.tasks()[j],
            self.tasks()[i].id == before.tasks()[i].id,
            self.tasks()[i].priority == before.tasks()[i].priority,
            self.tasks()[i].state == before.tasks()[i].state,
            self.retired() == before.retired(),
            self.newest_id() == before.newest_id(),
            self.current_id() == before.current_id(),
            self.suspended() == before.suspended(),
        ensures
            self.wf(),
            before.has_current() ==> self.has_current(),
            self.tasks() == before.tasks().update(i, self.tasks()[i]),
            forall|id: u32| index_of(self.tasks(), id) == index_of(before.tasks(), id),
    {
        let old_tasks = before.tasks();
        let new_tasks = self.tasks();
        assert(new_tasks =~= old_tasks.update(i, new_tasks[i]));
        assert forall|j: int| 0 <= j < new_tasks.len() implies (#[trigger] new_tasks[j]).id
            == old_tasks[j].id && new_tasks[j].priority == old_tasks[j].priority && new_tasks[j].state
            == old_tasks[j].state by {}
        assert forall|a: int, b: int| 0 <= a < b < new_tasks.len() implies new_tasks[a].id
            < new_tasks[b].id by {
            assert(new_tasks[a].id == old_tasks[a].id && new_tasks[b].id == old_tasks[b].id);
        }
        assert forall|id: u32| index_of(new_tasks, id) == index_of(old_tasks, id) by {
            if exists|k: int| 0 <= k < old_tasks.len() && (#[trigger] old_tasks[k]).id == id {
                let k = choose|k: int| 0 <= k < old_tasks.len() && (#[trigger] old_tasks[k]).id == id;
                assert(new_tasks[k].id == id);
                let m = choose|m: int| 0 <= m < new_tasks.len() && (#[trigger] new_tasks[m]).id == id;
                assert(old_tasks[m].id == id);
                if m < k {
                    assert(old_tasks[m].id < old_tasks[k].id);
                }
                if k < m {
                    assert(old_tasks[k].id < old_tasks[m].id);
                }
            } else {
                if exists|m: int| 0 <= m < new_tasks.len() && (#[trigger] new_tasks[m]).id == id {
                    let m = choose|m: int|
                        0 <= m < new_tasks.len() && (#[trigger] new_tasks[m]).id == id;
                    assert(old_tasks[m].id == id);
                }
            }
        }
        if before.has_current() {
            assert(index_of(new_tasks, before.current_id().unwrap()) is Some);
        }
    }

    /// Robot code has asked to exit: the driver stops after the poll that is
    /// under way.
    pub fn start_shutdown(&mut self)
        ensures
            final(self).shutdown_pending(),
            final(self).tasks() == old(self).tasks(),
            final(self).retired() == old(self).retired(),
            final(self).newest_id() == old(self).newest_id(),
            final(self).current_id() == old(self).current_id(),
            final(self).suspended() == old(self).suspended(),
            final(self).yield_pending() == old(self).yield_pending(),
            old(self).wf() ==> final(self).wf(),
    {
        self.shutdown_pending = true;
        proof {
            if old(self).wf() {
                assert(self.tasks() == old(self).tasks());
                if self.suspended() > 0 {
                    assert(old(self).has_current());
                    assert(self.has_current());
                }
            }
        }
    }
}

/// The scheduler is fair to the tasks of the highest priority: as long as
/// no task comes or goes and the scheduler is not suspended, any `turns`
/// calls of [`TaskPool::cycle_tasks`] in a row pick each of these `n` tasks
/// either `turns / n` times, rounded down, or that rounded up. The tasks
/// that are picked are [`picks`] of the candidates, because each call picks
/// [`next_task`] and leaves the candidates as they are.
pub proof fn lemma_scheduler_is_fair(pool: TaskPool, turns: nat, id: u32)
    requires
        pool.wf(),
        candidates(pool.tasks()).contains(id),
    ensures
        ({
            let ids = candidates(pool.tasks());
            let current = match pool.current_id() {
                Some(id) => id,
                None => 0,
            };
            &&& picks(ids, current, turns).len() == turns
            &&& turns / ids.len() <= times_picked(picks(ids, current, turns), id) <= (turns + ids.len()
                - 1) / (ids.len() as int)
        }),
{
    lemma_candidates(pool.tasks());
    let current = match pool.current_id() {
        Some(id) => id,
        None => 0,
    };
    lemma_round_robin_is_fair(candidates(pool.tasks()), current, turns, id);
}

/// Taking one task out of a pool leaves the handles of the others in
/// increasing order.
proof fn lemma_remove_keeps_order(tasks: Seq<Task>, i: int)
    requires
        sorted_by_id(tasks),
        0 <= i < tasks.len(),
    ensures
        sorted_by_id(tasks.remove(i)),
{
    let after = tasks.remove(i);
    assert forall|a: int, b: int| 0 <= a < b < after.len() implies after[a].id < after[b].id by {
        let a0 = if a < i { a } else { a + 1 };
        let b0 = if b < i { b } else { b + 1 };
        assert(after[a] == tasks[a0] && after[b] == tasks[b0]);
    }
}

} // verus!
