//! The mutexes that robot code creates, kept in a slab so that each keeps
//! its index for as long as it lives.
use slab::Slab;
use vstd::prelude::*;

verus! {

/// `slab::Slab`, of which nothing is known but what the functions below say.
#[verifier::external_type_specification]
#[verifier::external_body]
#[verifier::reject_recursive_types(T)]
pub struct ExSlab<T>(Slab<T>);

/// One mutex of robot code.
#[derive(Debug, Clone, Copy, PartialEq, Eq, Structural)]
pub struct HostMutex {
    /// The task that holds the mutex, if one does.
    pub holder: Option<u32>,
}

impl Default for HostMutex {
    /// A mutex that nobody holds.
    fn default() -> (mutex: Self)
        ensures
            mutex.holder is None,
    {
        HostMutex { holder: None }
    }
}

/// The mutexes that `slab` holds, by key.
pub uninterp spec fn slab_entries(slab: Slab<HostMutex>) -> Map<usize, HostMutex>;

/// The key that `slab` gives to the next mutex that is inserted.
pub uninterp spec fn slab_vacant_key(slab: Slab<HostMutex>) -> usize;

/// `Slab::new`: a slab that holds nothing and whose first key is 0.
#[verifier::external_body]
fn slab_new() -> (fresh: Slab<HostMutex>)
    ensures
        (slab_entries(fresh) == Map::<usize, HostMutex>::empty()),
        slab_vacant_key(fresh) == 0,
{
    Slab::new()
}

/// `Slab::insert`: stores `mutex` under the vacant key, which held nothing
/// before, and returns that key. Every other entry stays. Which key is
/// vacant afterwards is not said. (`insert` panics only where the slab
/// cannot allocate.)
#[verifier::external_body]
fn slab_insert(slab: &mut Slab<HostMutex>, mutex: HostMutex) -> (key: usize)
    ensures
        key == slab_vacant_key(*old(slab)),
        !slab_entries(*old(slab)).contains_key(key),
        slab_entries(*final(slab)) == slab_entries(*old(slab)).insert(key, mutex),
{
    slab.insert(mutex)
}

/// `Slab::try_remove`: takes out and returns the entry under `key`, if there
/// is one. Every other entry stays. A key that was freed is the vacant key
/// afterwards; where nothing was removed, the vacant key stays.
#[verifier::external_body]
fn slab_try_remove(slab: &mut Slab<HostMutex>, key: usize) -> (removed: Option<HostMutex>)
    ensures
        removed == if slab_entries(*old(slab)).contains_key(key) {
            Some(slab_entries(*old(slab))[key])
        } else {
            None
        },
        slab_entries(*final(slab)) == slab_entries(*old(slab)).remove(key),
        slab_vacant_key(*final(slab)) == if slab_entries(*old(slab)).contains_key(key) {
            key
        } else {
            slab_vacant_key(*old(slab))
        },
{
    slab.try_remove(key)
}

/// `Slab::get`: the entry under `key`, if there is one.
#[verifier::external_body]
fn slab_get(slab: &Slab<HostMutex>, key: usize) -> (found: Option<&HostMutex>)
    ensures
        found == if slab_entries(*slab).contains_key(key) {
            Some(&slab_entries(*slab)[key])
        } else {
            None
        },
{
    slab.get(key)
}

/// `Slab::get_mut`: the entry under `key`, if there is one, for writing.
/// Whatever is written becomes the entry under `key`; every other entry
/// and the vacant key stay.
#[verifier::external_body]
fn slab_get_mut(slab: &mut Slab<HostMutex>, key: usize) -> (found: Option<&mut HostMutex>)
    ensures
        slab_vacant_key(*final(slab)) == slab_vacant_key(*old(slab)),
        match found {
            Some(mutex) => slab_entries(*old(slab)).contains_key(key) && *mutex == slab_entries(
                *old(slab),
            )[key] && slab_entries(*final(slab)) == slab_entries(*old(slab)).insert(key, *final(mutex)),
            None => !slab_entries(*old(slab)).contains_key(key) && slab_entries(*final(slab))
                == slab_entries(*old(slab)),
        },
{
    slab.get_mut(key)
}

/// What a task learns when it tries to take a mutex.
#[derive(Debug, Clone, Copy, PartialEq, Eq, Structural)]
pub enum LockAttempt {
    /// The mutex was free and the task holds it now.
    Acquired,
    /// Another task, or the task itself, holds the mutex.
    Busy,
    /// There is no mutex with that index.
    NoSuchMutex,
}

/// What a task learns when it tries to take the mutex `mutex_id` of
/// `mutexes`.
pub open spec fn attempted(mutexes: Map<usize, HostMutex>, mutex_id: usize) -> LockAttempt {
    if !mutexes.contains_key(mutex_id) {
        LockAttempt::NoSuchMutex
    } else if mutexes[mutex_id].holder is None {
        LockAttempt::Acquired
    } else {
        LockAttempt::Busy
    }
}

/// The mutexes after `task` has tried to take the mutex `mutex_id`.
pub open spec fn after_attempt(mutexes: Map<usize, HostMutex>, mutex_id: usize, task: u32) -> Map<
    usize,
    HostMutex,
> {
    if attempted(mutexes, mutex_id) == LockAttempt::Acquired {
        mutexes.insert(mutex_id, HostMutex { holder: Some(task) })
    } else {
        mutexes
    }
}

/// The mutexes after the mutex `mutex_id` has been released.
pub open spec fn after_release(mutexes: Map<usize, HostMutex>, mutex_id: usize) -> Map<usize, HostMutex> {
    if mutexes.contains_key(mutex_id) {
        mutexes.insert(mutex_id, HostMutex { holder: None })
    } else {
        mutexes
    }
}

/// How far a task has come that takes a mutex and may have to wait for it.
#[derive(Debug, Clone, Copy, PartialEq, Eq, Structural)]
pub enum LockStep {
    /// The mutex was free, and the task holds it now.
    Locked,
    /// The mutex is held, and the time to wait for it is over.
    TimedOut,
    /// The mutex is held: the task yields and tries again.
    Waiting,
    /// There is no mutex with that index.
    NoSuchMutex,
}

/// What one step of taking the mutex `mutex_id` comes to at the time `now`,
/// where `timeout` is the time at which the task gives up, if it ever does.
/// The attempt to take the mutex comes first: a free mutex is taken even
/// after the time is over.
pub open spec fn lock_step(
    mutexes: Map<usize, HostMutex>,
    mutex_id: usize,
    timeout: Option<u64>,
    now: u64,
) -> LockStep {
    match attempted(mutexes, mutex_id) {
        LockAttempt::NoSuchMutex => LockStep::NoSuchMutex,
        LockAttempt::Acquired => LockStep::Locked,
        LockAttempt::Busy => if timeout is Some && now >= timeout.unwrap() {
            LockStep::TimedOut
        } else {
            LockStep::Waiting
        },
    }
}

/// A mutex has one holder at most. Once `first` has got the mutex
/// `mutex_id`, it holds it; any task that tries to take it, `first` itself
/// too, finds it busy, and the mutex stays with `first`, until it is
/// released: then the next task that tries gets it.
pub proof fn lemma_mutex_is_exclusive(
    mutexes: Map<usize, HostMutex>,
    mutex_id: usize,
    first: u32,
    second: u32,
)
    requires
        attempted(mutexes, mutex_id) == LockAttempt::Acquired,
    ensures
        after_attempt(mutexes, mutex_id, first)[mutex_id].holder == Some(first),
        attempted(after_attempt(mutexes, mutex_id, first), mutex_id) == LockAttempt::Busy,
        forall|timeout: Option<u64>, now: u64|
            #[trigger] lock_step(after_attempt(mutexes, mutex_id, first), mutex_id, timeout, now)
                != LockStep::Locked,
        after_attempt(after_attempt(mutexes, mutex_id, first), mutex_id, second) == after_attempt(
            mutexes,
            mutex_id,
            first,
        ),
        attempted(after_release(after_attempt(mutexes, mutex_id, first), mutex_id), mutex_id)
            == LockAttempt::Acquired,
        after_attempt(
            after_release(after_attempt(mutexes, mutex_id, first), mutex_id),
            mutex_id,
            second,
        )[mutex_id].holder == Some(second),
{
}

/// The mutexes that robot code has created and not yet deleted.
pub struct MutexPool {
    mutexes: Slab<HostMutex>,
}

impl View for MutexPool {
    type V = Map<usize, HostMutex>;

    closed spec fn view(&self) -> Map<usize, HostMutex> {
        slab_entries(self.mutexes)
    }
}

impl MutexPool {
    /// The index that the next mutex gets.
    pub closed spec fn next_id(&self) -> usize {
        slab_vacant_key(self.mutexes)
    }

    /// A pool without mutexes. The first mutex gets the index 0.
    pub fn new() -> (pool: Self)
        ensures
            pool@ == Map::<usize, HostMutex>::empty(),
            pool.next_id() == 0,
    {
        MutexPool { mutexes: slab_new() }
    }

    /// Creates a mutex that nobody holds and returns its index, which no
    /// living mutex has.
    pub fn create_mutex(&mut self) -> (mutex_id: usize)
        ensures
            mutex_id == old(self).next_id(),
            !old(self)@.contains_key(mutex_id),
            final(self)@ == old(self)@.insert(mutex_id, HostMutex { holder: None }),
    {
        slab_insert(&mut self.mutexes, HostMutex { holder: None })
    }

    /// Deletes the mutex `mutex_id` and returns it as it was, so that the
    /// caller can tell whether a task still held it. The next mutex that is
    /// created gets its index. `None`, and nothing changes, where there is
    /// no such mutex.
    pub fn delete_mutex(&mut self, mutex_id: usize) -> (deleted: Option<HostMutex>)
        ensures
            deleted == if old(self)@.contains_key(mutex_id) {
                Some(old(self)@[mutex_id])
            } else {
                None
            },
            final(self)@ == old(self)@.remove(mutex_id),
            final(self).next_id() == if deleted is Some {
                mutex_id
            } else {
                old(self).next_id()
            },
    {
        slab_try_remove(&mut self.mutexes, mutex_id)
    }

    /// The task that holds the mutex `mutex_id`, if one does; `None` where
    /// there is no such mutex.
    pub fn holder(&self, mutex_id: usize) -> (holder: Option<Option<u32>>)
        ensures
            holder == if self@.contains_key(mutex_id) {
                Some(self@[mutex_id].holder)
            } else {
                None
            },
    {
        match slab_get(&self.mutexes, mutex_id) {
            Some(mutex) => Some(mutex.holder),
            None => None,
        }
    }

    /// One attempt of `task` to take the mutex `mutex_id`. The task gets the
    /// mutex exactly if nobody held it; a mutex that is held stays with its
    /// holder.
    pub fn try_lock(&mut self, mutex_id: usize, task: u32) -> (attempt: LockAttempt)
        ensures
            attempt == attempted(old(self)@, mutex_id),
            final(self)@ == after_attempt(old(self)@, mutex_id, task),
            final(self).next_id() == old(self).next_id(),
    {
        match slab_get_mut(&mut self.mutexes, mutex_id) {
            None => LockAttempt::NoSuchMutex,
            Some(mutex) => {
                if mutex.holder.is_none() {
                    mutex.holder = Some(task);
                    LockAttempt::Acquired
                } else {
                    proof {
                        assert(old(self)@.insert(mutex_id, *mutex) =~= old(self)@);
                    }
                    LockAttempt::Busy
                }
            },
        }
    }

    /// One step of `task` taking the mutex `mutex_id` at the time `now`;
    /// `timeout` is the time at which the task gives up, if it ever does.
    /// The task gets the mutex exactly if nobody held it. A mutex that is
    /// held stays with its holder: the task waits, or gives up once the
    /// time is over.
    pub fn lock(&mut self, mutex_id: usize, task: u32, timeout: Option<u64>, now: u64) -> (step: LockStep)
        ensures
            step == lock_step(old(self)@, mutex_id, timeout, now),
            step == LockStep::Locked <==> attempted(old(self)@, mutex_id) == LockAttempt::Acquired,
            final(self)@ == after_attempt(old(self)@, mutex_id, task),
            final(self).next_id() == old(self).next_id(),
    {
        match self.try_lock(mutex_id, task) {
            LockAttempt::NoSuchMutex => LockStep::NoSuchMutex,
            LockAttempt::Acquired => LockStep::Locked,
            LockAttempt::Busy => {
                let expired = match timeout {
                    Some(timeout) => now >= timeout,
                    None => false,
                };
                if expired {
                    LockStep::TimedOut
                } else {
                    LockStep::Waiting
                }
            },
        }
    }

    /// Releases the mutex `mutex_id`, whoever holds it, and says whether
    /// there is such a mutex. Releasing a mutex that nobody holds changes
    /// nothing.
    pub fn unlock(&mut self, mutex_id: usize) -> (found: bool)
        ensures
            found == old(self)@.contains_key(mutex_id),
            final(self)@ == after_release(old(self)@, mutex_id),
            final(self).next_id() == old(self).next_id(),
    {
        match slab_get_mut(&mut self.mutexes, mutex_id) {
            None => false,
            Some(mutex) => {
                mutex.holder = None;
                true
            },
        }
    }
}

} // verus!
