//! What the C library of robot code needs from the simulator: `errno`, the
//! console, and the ways out of the program.
use crate::abi::{EBADF, EINVAL};
use crate::api::{
    api_items, distinct_from, env_items, lemma_group_names_are_distinct, AlreadyDefinedError,
    Definition, HostFunction, HostItem, Linker,
};
use crate::host::memory::{c_str, string_from_utf8, SharedMemoryExt};
use crate::host::task::{index_of, poll_settled, Errno, PollOutcome, Settled, Task, TaskPool};
use crate::host::{cell_of, last_event, Fault, Host, HostError, Reply};
use crate::interface::{EventView, SimulatorEvent};
use crate::text::{concat, signed_decimal, signed_decimal_string};
use vstd::prelude::*;
use vstd::string::StringExecFns;
use vstd::utf8::{decode_utf8, valid_utf8};

verus! {

/// The functions of this group, each under the name that robot code
/// imports it by.
pub open spec fn generic_io_items() -> Seq<(&'static str, HostItem)> {
    seq![
        ("__errno", HostItem::Function(HostFunction::Errno)),
        ("sim_abort", HostItem::Function(HostFunction::SimAbort)),
        ("puts", HostItem::Function(HostFunction::Puts)),
        ("write", HostItem::Function(HostFunction::Write)),
        ("exit", HostItem::Function(HostFunction::Exit)),
        ("sim_log_backtrace", HostItem::Function(HostFunction::SimLogBacktrace)),
    ]
}

/// The functions of this group, each under the name that robot code
/// imports it by.
pub fn generic_io_api() -> (items: Vec<(&'static str, HostItem)>)
    ensures
        items@ == generic_io_items(),
{
    let mut items: Vec<(&'static str, HostItem)> = Vec::new();
    items.push(("__errno", HostItem::Function(HostFunction::Errno)));
    items.push(("sim_abort", HostItem::Function(HostFunction::SimAbort)));
    items.push(("puts", HostItem::Function(HostFunction::Puts)));
    items.push(("write", HostItem::Function(HostFunction::Write)));
    items.push(("exit", HostItem::Function(HostFunction::Exit)));
    items.push(("sim_log_backtrace", HostItem::Function(HostFunction::SimLogBacktrace)));
    assert(items@ =~= generic_io_items());
    items
}

/// Offers the functions of this group to robot code. An error where one of
/// the names is defined already: the functions before that one have been
/// defined. A linker that offers nothing yet takes them all.
pub fn configure_generic_io_api(linker: &mut Linker) -> (done: Result<(), AlreadyDefinedError>)
    ensures
        old(linker)@.len() == 0 ==> done is Ok,
        done is Ok <==> distinct_from(old(linker)@, env_items(generic_io_items())),
        done is Ok ==> final(linker)@ == old(linker)@ + env_items(generic_io_items()),
        done is Err ==> exists|k: int|
            0 <= k < generic_io_items().len() && final(linker)@ == old(linker)@ + env_items(
                generic_io_items().subrange(0, k),
            ),
{
    proof {
        let group = generic_io_items();
        assert(group =~= api_items().subrange(37, 37 + group.len() as int));
        lemma_group_names_are_distinct(group, 37);
        if linker@.len() == 0 {
            assert(linker@ =~= Seq::<Definition>::empty());
        }
    }
    linker.define_all(&generic_io_api())
}

/// What stays as it is when a host call only reports something.
pub open spec fn same_but_interface(before: &Host, after: &Host) -> bool {
    &&& after.memory == before.memory
    &&& after.module == before.module
    &&& after.linker == before.linker
    &&& after.lcd == before.lcd
    &&& after.mutexes == before.mutexes
    &&& after.tasks == before.tasks
    &&& after.controllers == before.controllers
    &&& after.competition_phase == before.competition_phase
    &&& after.smart_ports == before.smart_ports
}

/// `__errno`: the address of the `errno` cell of the current task. A task
/// that has no cell yet takes `fresh`. Fails, fatally, and nothing changes,
/// where no task is being executed.
pub fn errno_address(host: &mut Host, fresh: Errno) -> (address: Result<u32, HostError>)
    requires
        old(host).wf(),
    ensures
        final(host).wf(),
        final(host).memory == old(host).memory,
        final(host).module == old(host).module,
        final(host).linker == old(host).linker,
        final(host).interface == old(host).interface,
        final(host).lcd == old(host).lcd,
        final(host).mutexes == old(host).mutexes,
        final(host).controllers == old(host).controllers,
        final(host).competition_phase == old(host).competition_phase,
        final(host).smart_ports == old(host).smart_ports,
        final(host).tasks.current_id() == old(host).tasks.current_id(),
        !old(host).tasks.has_current() ==> address == Err::<u32, HostError>(HostError::NoCurrentTask)
            && final(host).tasks == old(host).tasks,
        old(host).tasks.has_current() ==> {
            &&& final(host).tasks.has_current()
            &&& address == Ok::<u32, HostError>(
                cell_of(old(host).tasks.current_task(), fresh).address(),
            )
            &&& final(host).tasks.tasks() == old(host).tasks.tasks().update(
                index_of(old(host).tasks.tasks(), old(host).tasks.current_id().unwrap()).unwrap(),
                Task {
                    errno: Some(cell_of(old(host).tasks.current_task(), fresh)),
                    ..old(host).tasks.current_task()
                },
            )
        },
{
    if !host.tasks.is_running_task() {
        return Err(HostError::NoCurrentTask);
    }
    Ok(host.tasks.errno(fresh).address())
}

/// `sim_abort`: the message at `msg` with which robot code aborts. The
/// caller prints it and ends the simulator. Fails where no string can be
/// read at `msg`.
pub fn sim_abort(host: &Host, msg: u32) -> (message: Result<String, HostError>)
    ensures
        match c_str(host.memory@, msg as int) {
            Ok(text) => message matches Ok(m) && m@ == text,
            Err(e) => message == Err::<String, HostError>(HostError::BadString(e)),
        },
{
    match host.memory.read_c_str(msg) {
        Ok(message) => Ok(message),
        Err(e) => Err(HostError::BadString(e)),
    }
}

/// `puts`: writes the string at `buffer` and a newline to the console.
/// Returns 1. Traps, and nothing is written, where no string can be read
/// at `buffer`.
pub fn puts(host: &mut Host, buffer: u32) -> (value: Result<u32, HostError>)
    ensures
        same_but_interface(old(host), final(host)),
        match c_str(old(host).memory@, buffer as int) {
            Ok(text) => value == Ok::<u32, HostError>(1) && final(host).interface@ == old(host).interface@.push(EventView::ConsoleMessage(text + seq!['\n'])),
            Err(e) => value == Err::<u32, HostError>(HostError::BadString(e)) && final(host).interface
                == old(host).interface,
        },
{
    let mut console_message = match host.memory.read_c_str(buffer) {
        Ok(text) => text,
        Err(e) => {
            return Err(HostError::BadString(e));
        },
    };
    console_message.append("\n");
    proof {
        reveal_strlit("\n");
        assert("\n"@ =~= seq!['\n']);
    }
    host.interface.send(SimulatorEvent::ConsoleMessage(console_message));
    Ok(1)
}

/// What `write` comes to when the bytes that it names are `bytes`, or lie
/// outside the memory.
pub open spec fn write_reply(fd: i32, count: u32, bytes: Option<Seq<u8>>) -> Result<
    Reply<i32>,
    HostError,
> {
    if fd != 1 && fd != 2 {
        Ok(Reply { value: -1i32, errno: Some(EBADF) })
    } else if count > i32::MAX {
        Ok(Reply { value: -1i32, errno: Some(EINVAL) })
    } else if bytes is None {
        Err(HostError::OutOfBounds)
    } else if !valid_utf8(bytes.unwrap()) {
        Err(HostError::InvalidUtf8)
    } else {
        Ok(Reply { value: count as i32, errno: None })
    }
}

/// The `count` bytes of `memory` from `buffer` on, if they lie inside the
/// memory.
pub open spec fn bytes_at(memory: Seq<u8>, buffer: u32, count: u32) -> Option<Seq<u8>> {
    if buffer + count <= memory.len() {
        Some(memory.subrange(buffer as int, buffer + count))
    } else {
        None
    }
}

/// `write`: writes the `count` bytes at `buffer` to the file `fd`, which
/// must be the standard output, 1, or the standard error, 2: both are the
/// console. Returns `count`.
///
/// Returns -1, with `EBADF` for `errno`, for any other file; otherwise -1,
/// with `EINVAL`, where `count` does not fit the result. Traps where the
/// bytes do not lie inside the memory or are not UTF-8. In each of these
/// cases nothing is written.
pub fn write(host: &mut Host, fd: i32, buffer: u32, count: u32) -> (reply: Result<Reply<i32>, HostError>)
    ensures
        same_but_interface(old(host), final(host)),
        reply == write_reply(fd, count, bytes_at(old(host).memory@, buffer, count)),
        final(host).interface@ == if reply matches Ok(r) && r.errno is None {
            old(host).interface@.push(
                EventView::ConsoleMessage(
                    decode_utf8(bytes_at(old(host).memory@, buffer, count).unwrap()),
                ),
            )
        } else {
            old(host).interface@
        },
{
    if fd != 1 && fd != 2 {
        return Ok(Reply { value: -1, errno: Some(EBADF) });
    }
    if count > 0x7FFF_FFFF {
        return Ok(Reply { value: -1, errno: Some(EINVAL) });
    }
    let bytes = match host.memory.read_relaxed(buffer as usize, count as usize) {
        Ok(bytes) => bytes,
        Err(_) => {
            return Err(HostError::OutOfBounds);
        },
    };
    let text = match string_from_utf8(bytes) {
        Some(text) => text,
        None => {
            return Err(HostError::InvalidUtf8);
        },
    };
    host.interface.send(SimulatorEvent::ConsoleMessage(text));
    Ok(Reply { value: count as i32, errno: None })
}

/// The text that `exit` writes to the console for an exit code other than
/// 0.
pub open spec fn exit_message(code: i32) -> Seq<char> {
    "Error "@ + signed_decimal(code as int) + seq!['\n']
}

/// What `exit` does to the host.
pub open spec fn exited(before: &Host, code: i32, after: &Host) -> bool {
    &&& after.memory == before.memory
    &&& after.module == before.module
    &&& after.linker == before.linker
    &&& after.lcd == before.lcd
    &&& after.mutexes == before.mutexes
    &&& after.controllers == before.controllers
    &&& after.competition_phase == before.competition_phase
    &&& after.smart_ports == before.smart_ports
    &&& after.tasks.shutdown_pending()
    &&& after.tasks.tasks() == before.tasks.tasks()
    &&& after.tasks.retired() == before.tasks.retired()
    &&& after.tasks.newest_id() == before.tasks.newest_id()
    &&& after.tasks.current_id() == before.tasks.current_id()
    &&& after.tasks.suspended() == before.tasks.suspended()
    &&& after.tasks.yield_pending() == before.tasks.yield_pending()
    &&& after.interface@ == if code != 0 {
        before.interface@.push(EventView::ConsoleMessage(exit_message(code)))
    } else {
        before.interface@
    }
}

/// `exit`: robot code ends the program with the exit code `code`. An exit
/// code other than 0 is written to the console. From now on the driver
/// polls no task: the caller yields and does not run again.
pub fn exit(host: &mut Host, code: i32)
    ensures
        exited(old(host), code, final(host)),
        old(host).wf() ==> final(host).wf(),
{
    if code != 0 {
        let mut text = concat("Error ", signed_decimal_string(code).as_str());
        text.append("\n");
        proof {
            reveal_strlit("\n");
            assert(text@ =~= exit_message(code));
        }
        host.interface.send(SimulatorEvent::ConsoleMessage(text));
    }
    host.tasks.start_shutdown();
}

/// `sim_log_backtrace`: writes `backtrace`, the call stack of robot code
/// as the caller has captured it, and a newline to the console.
pub fn sim_log_backtrace(host: &mut Host, backtrace: &str)
    ensures
        same_but_interface(old(host), final(host)),
        final(host).interface@ == old(host).interface@.push(
            EventView::ConsoleMessage(backtrace@ + seq!['\n']),
        ),
{
    let text = concat(backtrace, "\n");
    proof {
        reveal_strlit("\n");
        assert(text@ =~= backtrace@ + seq!['\n']);
    }
    host.interface.send(SimulatorEvent::ConsoleMessage(text));
}

/// After `exit` nothing more happens. Whatever the poll of the exiting
/// task comes to, settling it tells the driver to stop, removes no task and
/// reports nothing; so the next thing that the simulator reports is how the
/// simulation ended: that all tasks have finished, or the fault.
pub proof fn lemma_exit_is_final(
    before: Host,
    code: i32,
    exiting: Host,
    outcome: PollOutcome,
    after: TaskPool,
    reported: Seq<EventView>,
    settled: Settled,
    fault: Option<Fault>,
)
    requires
        exited(&before, code, &exiting),
        poll_settled(&exiting.tasks, exiting.interface@, outcome, &after, reported, settled),
    ensures
        settled.stop,
        !settled.removed,
        after.tasks() == before.tasks.tasks(),
        after.retired() == before.tasks.retired(),
        reported == exiting.interface@,
        reported.push(last_event(fault)).last() is AllTasksFinished || reported.push(
            last_event(fault),
        ).last() is RobotCodeError,
{
}

} // verus!
