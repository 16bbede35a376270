//! Thread-local storage: each task owns a block of five 32-bit slots in
//! guest memory.
use crate::host::Host;
use crate::host::memory::{
    from_le_bytes, le_bytes, lemma_le_bytes_round_trip, u32_from_le_bytes, u32_to_le_bytes, written,
    GuestMemory,
    OutOfBoundsError, SharedMemoryExt,
};
use crate::host::task::{index_of, Task, TaskPool};
use vstd::prelude::*;

verus! {

/// Number of storage slots that each task has.
pub const NUM_THREAD_LOCAL_STORAGE_POINTERS: usize = 5;

/// Size in bytes of the block that holds the slots of one task.
pub const TASK_STORAGE_SIZE: u32 = 20;

/// Alignment in bytes of the block that holds the slots of one task.
pub const TASK_STORAGE_ALIGN: u32 = 4;

/// Whether `index` names one of the slots.
pub open spec fn index_in_bounds(index: i32) -> bool {
    0 <= index < NUM_THREAD_LOCAL_STORAGE_POINTERS
}

/// The storage block of one task.
#[derive(Debug, Clone, Copy, PartialEq, Eq, Structural)]
pub struct TaskStorage {
    base_ptr: u32,
}

impl TaskStorage {
    /// Whether the block lies inside the 32-bit address space. Every block
    /// does.
    #[verifier::type_invariant]
    pub closed spec fn fits(self) -> bool {
        self.base_ptr + TASK_STORAGE_SIZE <= u32::MAX + 1
    }

    /// Address of the first slot.
    pub closed spec fn base(self) -> u32 {
        self.base_ptr
    }

    /// Address of the slot `index`.
    pub open spec fn address_of(self, index: i32) -> int {
        self.base() + 4 * index
    }

    /// The block that starts at `base_ptr`; `None` where the block would
    /// reach past the end of the 32-bit address space.
    pub fn new(base_ptr: u32) -> (storage: Option<Self>)
        ensures
            storage is Some <==> base_ptr + TASK_STORAGE_SIZE <= u32::MAX + 1,
            storage matches Some(s) ==> s.base() == base_ptr && s.fits(),
    {
        if base_ptr <= u32::MAX - 19 {
            Some(TaskStorage { base_ptr })
        } else {
            None
        }
    }

    /// The claim that `index` names one of the slots. To ask for a slot
    /// that does not exist is a fault of the simulator, not of robot code:
    /// no caller may do so.
    pub fn assert_in_bounds(index: i32)
        requires
            index_in_bounds(index),
    {
    }

    /// Address of the slot `index`.
    pub fn get_address(&self, index: i32) -> (address: u32)
        requires
            index_in_bounds(index),
        ensures
            address == self.address_of(index),
            address + 4 <= u32::MAX + 1,
    {
        Self::assert_in_bounds(index);
        proof {
            use_type_invariant(self);
        }
        self.base_ptr + (index as u32) * 4
    }

    /// The number that the slot `index` holds in `memory`.
    pub fn get(&self, memory: &GuestMemory, index: i32) -> (value: Result<u32, OutOfBoundsError>)
        requires
            index_in_bounds(index),
        ensures
            value is Ok <==> self.address_of(index) + 4 <= memory@.len(),
            value matches Ok(v) ==> v == from_le_bytes(
                memory@.subrange(self.address_of(index), self.address_of(index) + 4),
            ),
    {
        let address = self.get_address(index);
        match memory.read_relaxed(address as usize, 4) {
            Ok(bytes) => Ok(u32_from_le_bytes(&bytes)),
            Err(e) => Err(e),
        }
    }

    /// Stores `value` in the slot `index` in `memory`. Nothing changes where
    /// the slot does not lie inside the memory.
    pub fn set(&self, memory: &mut GuestMemory, index: i32, value: u32) -> (done: Result<(), OutOfBoundsError>)
        requires
            index_in_bounds(index),
        ensures
            done is Ok <==> self.address_of(index) + 4 <= old(memory)@.len(),
            done is Ok ==> final(memory)@ == written(old(memory)@, self.address_of(index), le_bytes(value)),
            done is Err ==> final(memory)@ == old(memory)@,
    {
        let address = self.get_address(index);
        let bytes = u32_to_le_bytes(value);
        memory.write_relaxed(address as usize, bytes.as_slice())
    }
}

/// A slot holds what was stored in it last: reading the four bytes at
/// `address` after `value` has been written there gives `value`.
pub proof fn lemma_slot_holds_what_was_stored(memory: Seq<u8>, address: int, value: u32)
    requires
        0 <= address,
        address + 4 <= memory.len(),
    ensures
        from_le_bytes(written(memory, address, le_bytes(value)).subrange(address, address + 4))
            == value,
{
    lemma_le_bytes_round_trip(value);
    assert(written(memory, address, le_bytes(value)).subrange(address, address + 4) =~= le_bytes(
        value,
    ));
}

/// Something that knows the tasks and can find the storage block of each.
pub trait GetTaskStorage {
    /// The tasks whose storage is looked up.
    spec fn pool(&self) -> TaskPool;

    /// The block of thread-local slots of the task `task_handle`; the
    /// handle 0 stands for the current task. A task that has none yet takes
    /// `fresh`. `None`, and no task changes, where no such task is alive.
    fn task_storage(&mut self, task_handle: u32, fresh: TaskStorage) -> (storage: Option<TaskStorage>)
        requires
            old(self).pool().wf(),
        ensures
            final(self).pool().wf(),
            storage == match old(self).pool().resolve(task_handle) {
                Some(t) => Some(
                    match t.local_storage {
                        Some(s) => s,
                        None => fresh,
                    },
                ),
                None => None,
            },
            match old(self).pool().resolve(task_handle) {
                Some(t) => final(self).pool().tasks() == old(self).pool().tasks().update(
                    index_of(old(self).pool().tasks(), t.id).unwrap(),
                    Task { local_storage: storage, ..t },
                ),
                None => final(self).pool().tasks() == old(self).pool().tasks(),
            },
    ;
}

impl GetTaskStorage for Host {
    open spec fn pool(&self) -> TaskPool {
        self.tasks
    }

    fn task_storage(&mut self, task_handle: u32, fresh: TaskStorage) -> (storage: Option<TaskStorage>) {
        self.tasks.local_storage(task_handle, fresh)
    }
}

} // verus!
