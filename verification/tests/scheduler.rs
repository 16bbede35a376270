use pros_simulator::api::rtos_facilities::{
    millis, rtos_resume_all, rtos_suspend_all, task_create, task_delay, task_delay_until,
    task_delete, task_get_current, task_get_name, task_get_thread_local_storage_pointer, task_name,
    task_set_thread_local_storage_pointer,
};
use pros_simulator::host::memory::{GuestMemory, SharedMemoryExt};
use pros_simulator::host::task::{
    PollOutcome, ResumeError, Settled, TaskEntry, TaskOptions, TaskPool, TaskState,
    TASK_PRIORITIES, TASK_PRIORITY_DEFAULT,
};
use pros_simulator::host::thread_local::{GetTaskStorage, TaskStorage};
use pros_simulator::host::{Fault, Host, HostError};
use pros_simulator::interface::{SimulatorEvent, SimulatorInterface};

fn spawn(pool: &mut TaskPool, opts: TaskOptions) -> Option<u32> {
    let linker = pros_simulator::api::Linker::new();
    let module = pros_simulator::api::Module { imports: Vec::new() };
    let mut interface = pros_simulator::interface::SimulatorInterface::new();
    let handle = pool.spawn(opts, &linker, &module, &mut interface);
    assert_eq!(interface.len(), 0);
    handle
}

fn host_on(memory: Vec<u8>) -> Host {
    let mut linker = pros_simulator::api::Linker::new();
    pros_simulator::api::configure_api(&mut linker).unwrap();
    let module = pros_simulator::api::Module { imports: Vec::new() };
    Host::new(GuestMemory::new(memory), linker, module)
}

fn pool_with(priorities: &[u32]) -> TaskPool {
    let mut pool = TaskPool::new();
    for priority in priorities {
        spawn(&mut pool, TaskOptions::new_extern(0, 0).priority(*priority)).unwrap();
    }
    pool
}

fn picks(pool: &mut TaskPool, turns: usize) -> Vec<u32> {
    let mut picked = Vec::new();
    for _ in 0..turns {
        assert!(pool.cycle_tasks());
        picked.push(pool.current().id());
    }
    picked
}

#[test]
fn task_limits() {
    assert_eq!(TASK_PRIORITIES, 16);
    assert_eq!(TASK_PRIORITY_DEFAULT, 7);
}

#[test]
fn handles_start_at_one_and_names_default_to_the_handle() {
    let mut pool = TaskPool::new();
    assert_eq!(spawn(&mut pool, TaskOptions::new_extern(3, 4)), Some(1));
    assert_eq!(spawn(&mut pool, TaskOptions::new_global("opcontrol").name("driver".to_string())), Some(2));
    assert_eq!(spawn(&mut pool, TaskOptions::new_closure(0).priority(15)), Some(3));
    for _ in 3..12 {
        spawn(&mut pool, TaskOptions::new_extern(0, 0)).unwrap();
    }
    let first = pool.by_id(1).unwrap();
    assert_eq!((first.id(), first.name(), first.state()), (1, "task 1", TaskState::Ready));
    assert_eq!(first.start(), &TaskEntry::Extern { function: 3, argument: 4 });
    assert_eq!(first.priority, 7);
    assert_eq!(pool.by_id(2).unwrap().name(), "driver");
    assert_eq!(pool.by_id(2).unwrap().start(), &TaskEntry::Global("opcontrol".to_string()));
    assert_eq!(pool.by_id(3).unwrap().start(), &TaskEntry::Closure(0));
    assert_eq!(pool.by_id(3).unwrap().priority, 15);
    assert_eq!(pool.by_id(12).unwrap().name(), "task 12");
    assert!(pool.by_id(13).is_none());
    assert!(pool.by_id(0).is_none());
}

#[test]
fn round_robin_is_fair() {
    let mut pool = pool_with(&[7, 7, 7]);
    assert_eq!(picks(&mut pool, 7), vec![1, 2, 3, 1, 2, 3, 1]);
    for turns in 0..20 {
        let mut pool = pool_with(&[7, 7, 7, 7]);
        let picked = picks(&mut pool, turns);
        for id in 1..=4 {
            let times = picked.iter().filter(|p| **p == id).count();
            assert!(times == turns / 4 || times == (turns + 3) / 4);
        }
    }
}

#[test]
fn highest_priority_dominates() {
    let mut pool = pool_with(&[3, 9, 3, 9, 0]);
    assert_eq!(pool.highest_priority_task_ids(), vec![2, 4]);
    assert_eq!(picks(&mut pool, 5), vec![2, 4, 2, 4, 2]);
    assert_eq!(pool.task_state(2), Some(TaskState::Running));
    assert_eq!(pool.task_state(4), Some(TaskState::Ready));
    assert_eq!(pool.task_state(1), Some(TaskState::Ready));
    // once the tasks of priority 9 are gone, those of priority 3 take turns
    assert!(!pool.delete_task(4));
    let mut interface = SimulatorInterface::new();
    assert_eq!(
        pool.after_poll(&mut interface, PollOutcome::Finished),
        Settled { removed: true, stop: false }
    );
    assert_eq!(pool.highest_priority_task_ids(), vec![1, 3]);
    assert_eq!(picks(&mut pool, 3), vec![3, 1, 3]);
    assert_eq!(pool.task_state(2), Some(TaskState::Deleted));
    assert_eq!(pool.task_state(4), Some(TaskState::Deleted));
    assert!(pool.has_finished(2));
    assert!(!pool.has_finished(4));
    assert!(!pool.has_finished(1));
    assert!(!pool.has_finished(6));
    assert_eq!(pool.task_state(6), None);
}

#[test]
fn new_task_joins_the_round() {
    let mut pool = pool_with(&[7, 7]);
    assert_eq!(picks(&mut pool, 2), vec![1, 2]);
    spawn(&mut pool, TaskOptions::new_extern(0, 0)).unwrap();
    assert_eq!(picks(&mut pool, 4), vec![3, 1, 2, 3]);
    spawn(&mut pool, TaskOptions::new_extern(0, 0).priority(8)).unwrap();
    assert_eq!(picks(&mut pool, 2), vec![4, 4]);
}

#[test]
fn empty_pool_has_nothing_to_run() {
    let mut pool = TaskPool::new();
    assert!(!pool.cycle_tasks());
    assert!(!pool.is_running_task());
    assert_eq!(pool.highest_priority_task_ids(), Vec::<u32>::new());
    assert_eq!(pool.resume_all(), Err(ResumeError));
}

#[test]
fn suspended_scheduler_keeps_the_current_task() {
    let mut pool = pool_with(&[7, 7]);
    assert_eq!(picks(&mut pool, 1), vec![1]);
    pool.suspend_all();
    pool.suspend_all();
    assert_eq!(pool.suspend_count(), 2);
    assert_eq!(pool.resume_all(), Ok(false));
    assert_eq!(picks(&mut pool, 2), vec![1, 1]);
    // a switch was due while the scheduler was suspended
    assert_eq!(pool.resume_all(), Ok(true));
    assert_eq!(pool.resume_all(), Err(ResumeError));
    assert_eq!(picks(&mut pool, 2), vec![2, 1]);
    pool.suspend_all();
    assert_eq!(pool.resume_all(), Ok(false));
}

#[test]
fn running_task_is_deleted_at_its_next_yield() {
    let mut pool = pool_with(&[7, 7]);
    let mut interface = SimulatorInterface::new();
    assert_eq!(picks(&mut pool, 1), vec![1]);
    assert!(pool.delete_task(1));
    assert_eq!(pool.task_state(1), Some(TaskState::Running));
    assert!(pool.by_id(1).unwrap().marked_for_delete);
    assert_eq!(
        pool.after_poll(&mut interface, PollOutcome::Pending),
        Settled { removed: true, stop: false }
    );
    assert_eq!(pool.task_state(1), Some(TaskState::Deleted));
    assert!(!pool.has_finished(1));
    assert!(!pool.is_running_task());
    assert_eq!(picks(&mut pool, 2), vec![2, 2]);
    assert!(!pool.delete_task(1));
    assert!(!pool.delete_task(0));
    assert!(!pool.delete_task(77));
    assert_eq!(interface.len(), 0);
}

#[test]
fn pending_poll_changes_nothing() {
    let mut pool = pool_with(&[7]);
    let mut interface = SimulatorInterface::new();
    assert_eq!(picks(&mut pool, 1), vec![1]);
    assert_eq!(
        pool.after_poll(&mut interface, PollOutcome::Pending),
        Settled { removed: false, stop: false }
    );
    assert_eq!(pool.task_state(1), Some(TaskState::Running));
    assert_eq!(interface.len(), 0);
}

#[test]
fn task_that_ends_while_suspended_is_warned_of() {
    let mut pool = pool_with(&[7, 7]);
    let mut interface = SimulatorInterface::new();
    assert_eq!(picks(&mut pool, 1), vec![1]);
    pool.suspend_all();
    assert_eq!(
        pool.after_poll(&mut interface, PollOutcome::Finished),
        Settled { removed: true, stop: false }
    );
    assert_eq!(pool.suspend_count(), 0);
    assert_eq!(
        interface.take(),
        vec![SimulatorEvent::Warning(
            "Task `task 1` (#1) exited with scheduler in suspended state".to_string()
        )]
    );
    assert_eq!(picks(&mut pool, 1), vec![2]);
}

#[test]
fn trap_is_reported_and_the_others_go_on() {
    let mut pool = pool_with(&[7, 7]);
    let mut interface = SimulatorInterface::new();
    assert_eq!(picks(&mut pool, 1), vec![1]);
    let outcome = PollOutcome::Faulted { message: "unreachable".to_string(), backtrace: "0: f".to_string() };
    assert_eq!(pool.after_poll(&mut interface, outcome), Settled { removed: true, stop: false });
    assert_eq!(
        interface.take(),
        vec![SimulatorEvent::RobotCodeError {
            message: "unreachable".to_string(),
            backtrace: "0: f".to_string()
        }]
    );
    assert_eq!(pool.task_state(1), Some(TaskState::Deleted));
    assert!(pool.has_finished(1));
    assert_eq!(picks(&mut pool, 1), vec![2]);
}

#[test]
fn shutdown_stops_the_driver() {
    let mut host = host_on(vec![0; 8]);
    spawn(&mut host.tasks, TaskOptions::new_extern(0, 0)).unwrap();
    spawn(&mut host.tasks, TaskOptions::new_extern(0, 0)).unwrap();
    assert!(host.tasks.cycle_tasks());
    pros_simulator::api::generic_io::exit(&mut host, 0);
    let settled = host.tasks.after_poll(&mut host.interface, PollOutcome::Pending);
    assert_eq!(settled, Settled { removed: false, stop: true });
    let settled = host.tasks.after_poll(&mut host.interface, PollOutcome::Finished);
    assert_eq!(settled, Settled { removed: false, stop: true });
    assert_eq!(host.tasks.task_state(1), Some(TaskState::Running));
    assert_eq!(host.interface.len(), 0);
    host.finish(None);
    assert_eq!(host.interface.take(), vec![SimulatorEvent::AllTasksFinished]);
    host.finish(Some(Fault { message: "m".to_string(), backtrace: "b".to_string() }));
    assert_eq!(
        host.interface.take(),
        vec![SimulatorEvent::RobotCodeError { message: "m".to_string(), backtrace: "b".to_string() }]
    );
    host.loading();
    assert_eq!(host.interface.take(), vec![SimulatorEvent::Loading]);
}

#[test]
fn task_create_counts_priorities_from_one() {
    let mut host = host_on(vec![0; 8]);
    assert_eq!(task_create(&mut host, 5, 6, 8, 0x2000, 0), Ok(1));
    assert_eq!(task_create(&mut host, 5, 6, 1, 0x2000, 0), Ok(2));
    assert_eq!(task_create(&mut host, 5, 6, 16, 0x2000, 0), Ok(3));
    assert_eq!(task_create(&mut host, 5, 6, 0, 0, 0), Err(HostError::InvalidPriority(0)));
    assert_eq!(task_create(&mut host, 5, 6, 17, 0, 0), Err(HostError::InvalidPriority(17)));
    assert_eq!(host.tasks.by_id(1).unwrap().priority, 7);
    assert_eq!(host.tasks.by_id(2).unwrap().priority, 0);
    assert_eq!(host.tasks.by_id(3).unwrap().priority, 15);
    assert_eq!(host.tasks.by_id(1).unwrap().start(), &TaskEntry::Extern { function: 5, argument: 6 });
    assert_eq!(task_get_current(&host), Err(HostError::NoCurrentTask));
    assert!(host.tasks.cycle_tasks());
    assert_eq!(task_get_current(&host), Ok(3));
}

#[test]
fn task_delete_host_call() {
    let mut host = host_on(vec![0; 8]);
    task_create(&mut host, 0, 0, 8, 0, 0).unwrap();
    task_create(&mut host, 0, 0, 8, 0, 0).unwrap();
    assert!(host.tasks.cycle_tasks());
    assert!(!task_delete(&mut host, 2));
    assert_eq!(host.tasks.task_state(2), Some(TaskState::Deleted));
    assert!(task_delete(&mut host, 1));
    assert_eq!(host.tasks.task_state(1), Some(TaskState::Running));
}

#[test]
fn suspend_and_resume_host_calls() {
    let mut host = host_on(vec![0; 8]);
    assert_eq!(rtos_suspend_all(&mut host), Err(HostError::NoCurrentTask));
    assert_eq!(rtos_resume_all(&mut host), Err(HostError::ResumeWithoutSuspend));
    task_create(&mut host, 0, 0, 8, 0, 0).unwrap();
    assert!(host.tasks.cycle_tasks());
    assert_eq!(rtos_suspend_all(&mut host), Ok(()));
    assert_eq!(rtos_resume_all(&mut host), Ok(0));
    assert_eq!(rtos_suspend_all(&mut host), Ok(()));
    assert!(host.tasks.cycle_tasks());
    assert_eq!(rtos_resume_all(&mut host), Ok(1));
    assert_eq!(rtos_resume_all(&mut host), Err(HostError::ResumeWithoutSuspend));
}

#[test]
fn delays_yield_at_least_once() {
    let mut delay = task_delay(1000, 0);
    assert!(delay.poll(1000));
    assert!(!delay.poll(1000));
    let mut delay = task_delay(1000, 50);
    assert!(delay.poll(5000));
    assert!(!delay.poll(5000));
    let mut delay = task_delay(1000, 50);
    assert!(delay.poll(1000));
    assert!(delay.poll(1049));
    assert!(!delay.poll(1050));
    let mut delay = task_delay(u64::MAX - 1, 50);
    assert!(delay.poll(u64::MAX - 1));
    assert!(delay.poll(u64::MAX - 1));
    assert!(!delay.poll(u64::MAX));
    assert_eq!(millis(0), 0);
    assert_eq!(millis(1234), 1234);
    assert_eq!(millis(0x1_0000_0005), 5);
}

#[test]
fn delay_until_counts_from_the_stored_time() {
    let host = host_on(vec![0, 0, 0, 0, 0xe8, 0x03, 0, 0]);
    let mut delay = task_delay_until(&host, 4, 20).unwrap();
    assert!(delay.poll(2000));
    let mut delay = task_delay_until(&host, 4, 20).unwrap();
    assert!(delay.poll(1000));
    assert!(delay.poll(1019));
    assert!(!delay.poll(1020));
    assert_eq!(task_delay_until(&host, 0, 20), Err(HostError::InvalidDelay));
    assert_eq!(task_delay_until(&host, 4, 0), Err(HostError::InvalidDelay));
    assert_eq!(task_delay_until(&host, 5, 20), Err(HostError::OutOfBounds));
    let host = host_on(vec![0xff; 8]);
    let mut delay = task_delay_until(&host, 4, u32::MAX).unwrap();
    assert!(delay.poll(0));
    assert!(delay.poll(2 * (u32::MAX as u64) - 1));
    assert!(!delay.poll(2 * (u32::MAX as u64)));
}

#[test]
fn thread_local_storage_is_created_on_first_use() {
    let mut host = host_on(vec![0; 64]);
    task_create(&mut host, 0, 0, 8, 0, 0).unwrap();
    task_create(&mut host, 0, 0, 8, 0, 0).unwrap();
    assert!(host.tasks.cycle_tasks());
    let block = |at| TaskStorage::new(at).unwrap();
    assert_eq!(host.tasks.local_storage_of(0), Some(None));
    assert_eq!(task_set_thread_local_storage_pointer(&mut host, 0, 1, 0x0102_0304, block(0)), Ok(()));
    assert_eq!(host.tasks.local_storage_of(1).unwrap().unwrap().get_address(0), 0);
    assert_eq!(task_set_thread_local_storage_pointer(&mut host, 2, 1, 7, block(20)), Ok(()));
    // a block that is offered later is not taken
    assert_eq!(task_get_thread_local_storage_pointer(&mut host, 1, 1, block(40)), Ok(0x0102_0304));
    assert_eq!(task_get_thread_local_storage_pointer(&mut host, 2, 1, block(40)), Ok(7));
    assert_eq!(task_get_thread_local_storage_pointer(&mut host, 2, 0, block(40)), Ok(0));
    assert_eq!(host.memory.read_relaxed(4, 4), Ok(vec![4, 3, 2, 1]));
    assert_eq!(host.memory.read_relaxed(24, 4), Ok(vec![7, 0, 0, 0]));
    assert_eq!(
        task_get_thread_local_storage_pointer(&mut host, 1, 5, block(40)),
        Err(HostError::StorageIndex(5))
    );
    assert_eq!(
        task_set_thread_local_storage_pointer(&mut host, 1, -1, 0, block(40)),
        Err(HostError::StorageIndex(-1))
    );
    assert_eq!(
        task_get_thread_local_storage_pointer(&mut host, 9, 0, block(40)),
        Err(HostError::NoSuchTask(9))
    );
    assert_eq!(host.tasks.local_storage_of(9), None);
}

#[test]
fn thread_local_storage_outside_memory() {
    let mut host = host_on(vec![0; 16]);
    task_create(&mut host, 0, 0, 8, 0, 0).unwrap();
    let block = TaskStorage::new(4).unwrap();
    assert_eq!(task_set_thread_local_storage_pointer(&mut host, 1, 2, 9, block), Ok(()));
    assert_eq!(task_set_thread_local_storage_pointer(&mut host, 1, 3, 9, block), Err(HostError::OutOfBounds));
    assert_eq!(task_get_thread_local_storage_pointer(&mut host, 1, 4, block), Err(HostError::OutOfBounds));
    assert_eq!(task_get_thread_local_storage_pointer(&mut host, 0, 0, block), Err(HostError::NoSuchTask(0)));
}

#[test]
fn task_names_are_copied_as_c_strings() {
    let mut host = host_on(vec![0xff; 16]);
    task_create(&mut host, 0, 0, 8, 0, 0).unwrap();
    spawn(&mut host.tasks, TaskOptions::new_global("x").name("né".to_string())).unwrap();
    spawn(&mut host.tasks, TaskOptions::new_global("x").name("a\0b".to_string())).unwrap();
    assert_eq!(task_name(&host, 1), Ok(Some(b"task 1\0".to_vec())));
    assert_eq!(task_name(&host, 2), Ok(Some(vec![b'n', 0xc3, 0xa9, 0])));
    assert_eq!(task_name(&host, 3), Err(HostError::InvalidName));
    assert_eq!(task_name(&host, 4), Ok(None));
    assert_eq!(task_name(&host, 0), Ok(None));
    assert_eq!(task_get_name(&mut host, 1, 8), Ok(8));
    assert_eq!(host.memory.read_relaxed(7, 9), Ok(b"\xfftask 1\0\xff".to_vec()));
    assert_eq!(task_get_name(&mut host, 4, 8), Ok(0));
    assert_eq!(task_get_name(&mut host, 3, 8), Err(HostError::InvalidName));
    assert_eq!(task_get_name(&mut host, 1, 10), Err(HostError::OutOfBounds));
    assert_eq!(task_get_name(&mut host, 2, 12), Ok(12));
    assert!(host.tasks.cycle_tasks());
    assert_eq!(task_name(&host, 0), Ok(Some(b"task 1\0".to_vec())));
}

#[test]
fn spawning_links_the_robot_code() {
    let mut linker = pros_simulator::api::Linker::new();
    pros_simulator::api::configure_api(&mut linker).unwrap();
    let import = |name: &str| pros_simulator::api::Import {
        module: "env".to_string(),
        name: name.to_string(),
    };
    let module = pros_simulator::api::Module {
        imports: vec![import("memory"), import("lcd_print"), import("delay")],
    };
    let mut host = Host::new(GuestMemory::new(vec![0; 8]), linker, module);
    assert_eq!(task_create(&mut host, 1, 2, 8, 0, 0), Ok(1));
    let warning = SimulatorEvent::Warning(
        "Unimplemented API `lcd_print` (Robot code will crash if this is used)".to_string(),
    );
    assert_eq!(host.interface.take(), vec![warning.clone()]);
    assert_eq!(task_create(&mut host, 1, 2, 0, 0, 0), Err(HostError::InvalidPriority(0)));
    assert_eq!(host.interface.len(), 0);
    assert_eq!(
        pros_simulator::system::system_daemon::spawn_user_code(
            &mut host,
            pros_simulator::system::system_daemon::UserTask::Opcontrol
        ),
        Some(2)
    );
    assert_eq!(host.interface.take(), vec![warning]);
}

#[test]
fn task_storage_through_the_host() {
    let mut host = host_on(vec![0; 8]);
    task_create(&mut host, 0, 0, 8, 0, 0).unwrap();
    let first = TaskStorage::new(16).unwrap();
    let second = TaskStorage::new(64).unwrap();
    assert_eq!(host.task_storage(1, first), Some(first));
    assert_eq!(host.task_storage(1, second), Some(first));
    assert_eq!(host.task_storage(2, second), None);
    assert_eq!(host.task_storage(0, second), None);
    assert!(host.tasks.cycle_tasks());
    assert_eq!(host.task_storage(0, second), Some(first));
    assert!(!host.tasks.current().is_finished());
}
