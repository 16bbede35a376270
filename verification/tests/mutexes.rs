use pros_simulator::abi::TIMEOUT_MAX;
use pros_simulator::api::rtos_facilities::{
    mutex_create, mutex_delete, mutex_give, mutex_take, mutex_take_deadline,
};
use pros_simulator::host::memory::GuestMemory;
use pros_simulator::host::multitasking::{HostMutex, LockAttempt, LockStep, MutexPool};
use pros_simulator::host::task::TaskOptions;
use pros_simulator::host::{Host, HostError};
use pros_simulator::interface::SimulatorEvent;

fn spawn(pool: &mut pros_simulator::host::task::TaskPool, opts: TaskOptions) -> Option<u32> {
    let linker = pros_simulator::api::Linker::new();
    let module = pros_simulator::api::Module { imports: Vec::new() };
    let mut interface = pros_simulator::interface::SimulatorInterface::new();
    let handle = pool.spawn(opts, &linker, &module, &mut interface);
    assert_eq!(interface.len(), 0);
    handle
}

fn host_on(memory: Vec<u8>) -> Host {
    let mut linker = pros_simulator::api::Linker::new();
    pros_simulator::api::configure_api(&mut linker).unwrap();
    let module = pros_simulator::api::Module { imports: Vec::new() };
    Host::new(GuestMemory::new(memory), linker, module)
}

fn host_with_two_tasks() -> Host {
    let mut host = host_on(vec![0; 8]);
    spawn(&mut host.tasks, TaskOptions::new_extern(0, 0)).unwrap();
    spawn(&mut host.tasks, TaskOptions::new_extern(1, 0)).unwrap();
    assert!(host.tasks.cycle_tasks());
    host
}

#[test]
fn mutex_indices_are_stable_and_reused() {
    let mut pool = MutexPool::new();
    assert_eq!(pool.create_mutex(), 0);
    assert_eq!(pool.create_mutex(), 1);
    assert_eq!(pool.create_mutex(), 2);
    assert_eq!(pool.try_lock(1, 9), LockAttempt::Acquired);
    assert_eq!(pool.delete_mutex(0), Some(HostMutex { holder: None }));
    assert_eq!(pool.holder(0), None);
    assert_eq!(pool.holder(1), Some(Some(9)));
    assert_eq!(pool.holder(2), Some(None));
    assert_eq!(pool.delete_mutex(0), None);
    assert_eq!(pool.create_mutex(), 0);
    assert_eq!(pool.holder(0), Some(None));
    assert_eq!(pool.delete_mutex(1), Some(HostMutex { holder: Some(9) }));
    assert_eq!(pool.holder(1), None);
    assert_eq!(HostMutex::default(), HostMutex { holder: None });
}

#[test]
fn a_mutex_has_one_holder() {
    let mut pool = MutexPool::new();
    let id = pool.create_mutex();
    assert_eq!(pool.try_lock(id, 1), LockAttempt::Acquired);
    assert_eq!(pool.try_lock(id, 2), LockAttempt::Busy);
    assert_eq!(pool.try_lock(id, 1), LockAttempt::Busy);
    assert_eq!(pool.holder(id), Some(Some(1)));
    assert!(pool.unlock(id));
    assert_eq!(pool.holder(id), Some(None));
    assert_eq!(pool.try_lock(id, 2), LockAttempt::Acquired);
    assert_eq!(pool.holder(id), Some(Some(2)));
    assert_eq!(pool.try_lock(id + 1, 2), LockAttempt::NoSuchMutex);
    assert!(!pool.unlock(id + 1));
}

#[test]
fn unlocking_a_free_mutex_is_permitted() {
    let mut pool = MutexPool::new();
    let id = pool.create_mutex();
    assert!(pool.unlock(id));
    assert!(pool.unlock(id));
    assert_eq!(pool.try_lock(id, 5), LockAttempt::Acquired);
}

#[test]
fn take_deadline() {
    assert_eq!(mutex_take_deadline(TIMEOUT_MAX, 5), None);
    assert_eq!(mutex_take_deadline(100, 5), Some(105));
    assert_eq!(mutex_take_deadline(0, 5), Some(5));
    assert_eq!(mutex_take_deadline(10, u64::MAX - 3), Some(u64::MAX));
}

#[test]
fn mutex_timeout() {
    let mut host = host_with_two_tasks();
    assert_eq!(mutex_create(&mut host), 0);
    // the first task takes the mutex and keeps it
    assert_eq!(mutex_take(&mut host, 0, mutex_take_deadline(TIMEOUT_MAX, 0), 0), Ok(Some(1)));
    assert!(host.tasks.cycle_tasks());
    // the second task tries for 100 ms
    let deadline = mutex_take_deadline(100, 1000);
    assert_eq!(mutex_take(&mut host, 0, deadline, 1000), Ok(None));
    assert_eq!(mutex_take(&mut host, 0, deadline, 1099), Ok(None));
    assert_eq!(mutex_take(&mut host, 0, deadline, 1100), Ok(Some(0)));
    assert_eq!(host.mutexes.holder(0), Some(Some(1)));
    // without a deadline it waits for as long as the mutex is held
    assert_eq!(mutex_take(&mut host, 0, None, u64::MAX), Ok(None));
    assert!(host.tasks.cycle_tasks());
    assert_eq!(mutex_give(&mut host, 0), Ok(1));
    assert!(host.tasks.cycle_tasks());
    assert_eq!(mutex_take(&mut host, 0, None, u64::MAX), Ok(Some(1)));
    assert_eq!(host.mutexes.holder(0), Some(Some(2)));
}

#[test]
fn take_succeeds_even_after_the_deadline_if_the_mutex_is_free() {
    let mut host = host_with_two_tasks();
    let id = mutex_create(&mut host);
    assert_eq!(mutex_take(&mut host, id, Some(10), 50), Ok(Some(1)));
}

#[test]
fn missing_mutex_traps() {
    let mut host = host_with_two_tasks();
    assert_eq!(mutex_take(&mut host, 3, None, 0), Err(HostError::NoSuchMutex(3)));
    assert_eq!(mutex_give(&mut host, 3), Err(HostError::NoSuchMutex(3)));
    assert_eq!(mutex_delete(&mut host, 3), Err(HostError::NoSuchMutex(3)));
    assert_eq!(host.interface.len(), 0);
}

#[test]
fn deleting_a_held_mutex_is_warned_of() {
    let mut host = host_with_two_tasks();
    let free = mutex_create(&mut host);
    let held = mutex_create(&mut host);
    assert_eq!(mutex_take(&mut host, held, None, 0), Ok(Some(1)));
    assert_eq!(mutex_delete(&mut host, free), Ok(()));
    assert_eq!(host.interface.len(), 0);
    assert_eq!(mutex_delete(&mut host, held), Ok(()));
    assert_eq!(
        host.interface.take(),
        vec![SimulatorEvent::Warning("Mutex 1 deleted while task 1 holds it".to_string())]
    );
    assert_eq!(mutex_delete(&mut host, held), Err(HostError::NoSuchMutex(1)));
}

#[test]
fn taking_a_mutex_needs_a_running_task() {
    let mut host = host_on(vec![0; 8]);
    let id = mutex_create(&mut host);
    assert_eq!(mutex_take(&mut host, id, None, 0), Err(HostError::NoCurrentTask));
    assert_eq!(host.mutexes.holder(id as usize), Some(None));
}

#[test]
fn lock_waits_until_the_time_is_over() {
    let mut pool = MutexPool::new();
    let id = pool.create_mutex();
    assert_eq!(pool.lock(id, 1, Some(100), 0), LockStep::Locked);
    assert_eq!(pool.lock(id, 2, Some(100), 99), LockStep::Waiting);
    assert_eq!(pool.lock(id, 2, Some(100), 100), LockStep::TimedOut);
    assert_eq!(pool.lock(id, 2, None, u64::MAX), LockStep::Waiting);
    assert_eq!(pool.lock(id, 1, Some(0), 0), LockStep::TimedOut);
    assert_eq!(pool.lock(id + 1, 2, None, 0), LockStep::NoSuchMutex);
    assert_eq!(pool.holder(id), Some(Some(1)));
    assert!(pool.unlock(id));
    assert_eq!(pool.lock(id, 2, Some(100), 500), LockStep::Locked);
    assert_eq!(pool.holder(id), Some(Some(2)));
}
