//! The functions that the simulator offers to robot code as imports of the
//! module `env`, and the table that they are looked up in when robot code is
//! linked.
pub mod generic_io;
pub mod llemu;
pub mod misc;
pub mod motors;
pub mod rtos_facilities;

use crate::host::task::TaskPool;
use crate::interface::{EventView, SimulatorEvent, SimulatorInterface};
use crate::text::concat;
use vstd::prelude::*;
use vstd::string::StringExecFns;

verus! {

/// A function of the simulator that robot code can import.
#[derive(Debug, Clone, Copy, PartialEq, Eq, Structural)]
pub enum HostFunction {
    LcdInitialize,
    LcdSetText,
    LcdClearLine,
    LcdClear,
    LcdRegisterBtn0Cb,
    LcdRegisterBtn1Cb,
    LcdRegisterBtn2Cb,
    ControllerGetAnalog,
    ControllerGetDigital,
    ControllerGetDigitalNewPress,
    ControllerIsConnected,
    ControllerGetBatteryCapacity,
    ControllerGetBatteryLevel,
    CompetitionGetStatus,
    CompetitionIsAutonomous,
    CompetitionIsConnected,
    CompetitionIsDisabled,
    MotorMove,
    MotorSetBrakeMode,
    MotorSetEncoderUnits,
    MutexCreate,
    MutexDelete,
    MutexGive,
    MutexTake,
    TaskGetThreadLocalStoragePointer,
    TaskSetThreadLocalStoragePointer,
    TaskGetCurrent,
    Delay,
    TaskDelay,
    TaskDelayUntil,
    RtosSuspendAll,
    RtosResumeAll,
    Millis,
    TaskCreate,
    TaskDelete,
    TaskGetName,
    Errno,
    SimAbort,
    Puts,
    Write,
    Exit,
    SimLogBacktrace,
}

/// Something that the simulator offers under a name.
#[derive(Debug, Clone, Copy, PartialEq, Eq, Structural)]
pub enum HostItem {
    /// The shared linear memory.
    Memory,
    Function(HostFunction),
}

/// One name that robot code imports.
#[derive(Debug, Clone, PartialEq, Eq)]
pub struct Import {
    pub module: String,
    pub name: String,
}

/// A module of robot code, as far as linking looks at it: the names that it
/// imports, in the order in which it declares them.
#[derive(Debug, Clone, PartialEq, Eq)]
pub struct Module {
    pub imports: Vec<Import>,
}

/// One entry of a linker: the item that is offered as `name` of `module`.
pub ghost struct Definition {
    pub module: Seq<char>,
    pub name: Seq<char>,
    pub item: HostItem,
}

/// The name is defined already.
#[derive(Debug, Clone, Copy, PartialEq, Eq, Structural)]
pub struct AlreadyDefinedError;

struct Entry {
    module: String,
    name: String,
    item: HostItem,
}

/// The table of what the simulator offers to robot code, by module and
/// name.
pub struct Linker {
    entries: Vec<Entry>,
}

/// Whether `definitions` holds an entry for `name` of `module`.
pub open spec fn defines(definitions: Seq<Definition>, module: Seq<char>, name: Seq<char>) -> bool {
    exists|i: int|
        0 <= i < definitions.len() && (#[trigger] definitions[i]).module == module && definitions[i].name
            == name
}

/// The item that `definitions` offers as `name` of `module`: that of the
/// first such entry.
pub open spec fn lookup(definitions: Seq<Definition>, module: Seq<char>, name: Seq<char>) -> Option<
    HostItem,
>
    decreases definitions.len(),
{
    if definitions.len() == 0 {
        None
    } else if definitions[0].module == module && definitions[0].name == name {
        Some(definitions[0].item)
    } else {
        lookup(definitions.drop_first(), module, name)
    }
}

/// Whether no two entries of `definitions` have the same module and name.
pub open spec fn distinct(definitions: Seq<Definition>) -> bool {
    forall|i: int, j: int|
        0 <= i < j < definitions.len() ==> !((#[trigger] definitions[i]).module == (
        #[trigger] definitions[j]).module && definitions[i].name == definitions[j].name)
}

/// The text of the warning about an import that the simulator does not
/// offer.
pub open spec fn unimplemented_warning(name: Seq<char>) -> Seq<char> {
    "Unimplemented API `"@ + name + "` (Robot code will crash if this is used)"@
}

/// The warnings about those of `imports` that `definitions` does not
/// offer, in the order of `imports`.
pub open spec fn link_warnings(definitions: Seq<Definition>, imports: Seq<Import>) -> Seq<EventView>
    decreases imports.len(),
{
    if imports.len() == 0 {
        Seq::empty()
    } else {
        let rest = link_warnings(definitions, imports.drop_last());
        if defines(definitions, imports.last().module@, imports.last().name@) {
            rest
        } else {
            rest.push(EventView::Warning(unimplemented_warning(imports.last().name@)))
        }
    }
}

impl View for Linker {
    type V = Seq<Definition>;

    closed spec fn view(&self) -> Seq<Definition> {
        Seq::new(
            self.entries@.len(),
            |i: int|
                Definition {
                    module: self.entries@[i].module@,
                    name: self.entries@[i].name@,
                    item: self.entries@[i].item,
                },
        )
    }
}

impl Linker {
    /// A linker that offers nothing.
    pub fn new() -> (linker: Self)
        ensures
            linker@ == Seq::<Definition>::empty(),
    {
        let linker = Linker { entries: Vec::new() };
        assert(linker@ =~= Seq::<Definition>::empty());
        linker
    }

    /// Index of the first entry for `name` of `module`.
    fn find(&self, module: &str, name: &str) -> (found: Option<usize>)
        ensures
            match found {
                Some(i) => i < self@.len() && self@[i as int].module == module@ && self@[i as int].name
                    == name@ && lookup(self@, module@, name@) == Some(self@[i as int].item),
                None => !defines(self@, module@, name@) && lookup(self@, module@, name@) is None,
            },
    {
        let wanted_module = String::from_str(module);
        let wanted_name = String::from_str(name);
        let n = self.entries.len();
        let mut i: usize = 0;
        assert(self@.subrange(0, n as int) =~= self@);
        while i < n
            invariant
                n == self.entries@.len(),
                n == self@.len(),
                i <= n,
                wanted_module@ == module@,
                wanted_name@ == name@,
                forall|j: int|
                    0 <= j < i ==> !((#[trigger] self@[j]).module == module@ && self@[j].name == name@),
                lookup(self@, module@, name@) == lookup(self@.subrange(i as int, n as int), module@, name@),
            decreases n - i,
        {
            proof {
                let rest = self@.subrange(i as int, n as int);
                assert(rest[0] == self@[i as int]);
                assert(rest.drop_first() =~= self@.subrange(i + 1, n as int));
            }
            if self.entries[i].module == wanted_module && self.entries[i].name == wanted_name {
                proof {
                    let rest = self@.subrange(i as int, n as int);
                    assert(rest.len() > 0 && rest[0] == self@[i as int]);
                    assert(rest[0].module == module@ && rest[0].name == name@);
                    assert(lookup(rest, module@, name@) == Some(rest[0].item));
                }
                return Some(i);
            }
            assert(!(self@[i as int].module == module@ && self@[i as int].name == name@));
            i = i + 1;
        }
        proof {
            assert(self@.subrange(n as int, n as int) =~= Seq::<Definition>::empty());
        }
        None
    }

    /// The item that is offered as `name` of `module`, if one is.
    pub fn get(&self, module: &str, name: &str) -> (item: Option<HostItem>)
        ensures
            item == lookup(self@, module@, name@),
            item is Some <==> defines(self@, module@, name@),
    {
        match self.find(module, name) {
            Some(i) => Some(self.entries[i].item),
            None => None,
        }
    }

    /// Offers `item` as `name` of `module`. An error, and nothing changes,
    /// where that name is defined already.
    pub fn define(&mut self, module: &str, name: &str, item: HostItem) -> (done: Result<
        (),
        AlreadyDefinedError,
    >)
        ensures
            done is Err <==> defines(old(self)@, module@, name@),
            final(self)@ == if done is Ok {
                old(self)@.push(Definition { module: module@, name: name@, item })
            } else {
                old(self)@
            },
    {
        if self.find(module, name).is_some() {
            return Err(AlreadyDefinedError);
        }
        self.entries.push(
            Entry { module: String::from_str(module), name: String::from_str(name), item },
        );
        assert(self@ =~= old(self)@.push(Definition { module: module@, name: name@, item }));
        Ok(())
    }

    /// Offers each of `items` under its name in the module `env`, in order.
    /// An error where one of the names is defined already: the items before
    /// that one have been defined.
    pub fn define_all(&mut self, items: &Vec<(&'static str, HostItem)>) -> (done: Result<
        (),
        AlreadyDefinedError,
    >)
        ensures
            done is Ok ==> final(self)@ == old(self)@ + env_items(items@),
            done is Err ==> exists|k: int|
                0 <= k < items@.len() && defines(
                    old(self)@ + env_items(items@.subrange(0, k)),
                    "env"@,
                    (#[trigger] items@[k]).0@,
                ) && final(self)@ == old(self)@ + env_items(items@.subrange(0, k)),
            done is Ok <==> distinct_from(old(self)@, env_items(items@)),
    {
        let n = items.len();
        let mut i: usize = 0;
        assert(self@ =~= old(self)@ + env_items(items@.subrange(0, 0)));
        while i < n
            invariant
                n == items@.len(),
                i <= n,
                self@ == old(self)@ + env_items(items@.subrange(0, i as int)),
                distinct_from(old(self)@, env_items(items@.subrange(0, i as int))),
            decreases n - i,
        {
            let (name, item) = items[i];
            let ghost done_before = env_items(items@.subrange(0, i as int));
            let ghost done_after = env_items(items@.subrange(0, i + 1));
            proof {
                assert(done_after =~= done_before.push(
                    Definition { module: "env"@, name: name@, item },
                ));
            }
            match self.define("env", name, item) {
                Ok(()) => {},
                Err(e) => {
                    proof {
                        let all = env_items(items@);
                        assert(all[i as int].name == name@ && all[i as int].module == "env"@);
                        let c = choose|c: int|
                            0 <= c < self@.len() && (#[trigger] self@[c]).module == "env"@ && self@[c].name
                                == name@;
                        if c < old(self)@.len() {
                            assert(self@[c] == old(self)@[c]);
                        } else {
                            let d = c - old(self)@.len();
                            assert(self@[c] == done_before[d]);
                            assert(done_before[d] == all[d]);
                        }
                    }
                    return Err(e);
                },
            }
            proof {
                assert(self@ =~= old(self)@ + done_after);
                assert forall|a: int, b: int|
                    0 <= a < old(self)@.len() && 0 <= b < done_after.len() implies !((
                #[trigger] old(self)@[a]).module == (#[trigger] done_after[b]).module && old(self)@[a].name == done_after[b].name) by {
                    if b < i {
                        assert(done_after[b] == done_before[b]);
                    } else {
                        assert((old(self)@ + done_before)[a] == old(self)@[a]);
                    }
                }
                assert forall|a: int, b: int| 0 <= a < b < done_after.len() implies !((
                #[trigger] done_after[a]).module == (#[trigger] done_after[b]).module
                    && done_after[a].name == done_after[b].name) by {
                    if b < i {
                        assert(done_after[a] == done_before[a] && done_after[b] == done_before[b]);
                    } else {
                        assert(done_after[a] == done_before[a]);
                        assert((old(self)@ + done_before)[old(self)@.len() + a] == done_before[a]);
                    }
                }
            }
            i = i + 1;
        }
        assert(items@.subrange(0, n as int) =~= items@);
        Ok(())
    }
}

/// The entries that offer each of `items` under its name in the module
/// `env`.
pub open spec fn env_items(items: Seq<(&'static str, HostItem)>) -> Seq<Definition> {
    Seq::new(items.len(), |i: int| Definition { module: "env"@, name: items[i].0@, item: items[i].1 })
}

/// Whether no name of `added` is defined in `present` or twice in `added`.
pub open spec fn distinct_from(present: Seq<Definition>, added: Seq<Definition>) -> bool {
    &&& distinct(added)
    &&& forall|a: int, b: int|
        0 <= a < present.len() && 0 <= b < added.len() ==> !((#[trigger] present[a]).module == (
        #[trigger] added[b]).module && present[a].name == added[b].name)
}

impl TaskPool {
    /// Checks the imports of a module of robot code against what `linker`
    /// offers, before a task is made from the module. Each import that the
    /// simulator does not offer is warned of, in the order of `imports`,
    /// and the result says so for each import: such an import has to trap
    /// when robot code calls it.
    pub fn instantiate(linker: &Linker, imports: &Vec<Import>, interface: &mut SimulatorInterface) -> (traps:
        Vec<bool>)
        ensures
            traps@.len() == imports@.len(),
            forall|i: int|
                0 <= i < imports@.len() ==> #[trigger] traps@[i] == !defines(
                    linker@,
                    imports@[i].module@,
                    imports@[i].name@,
                ),
            final(interface)@ == old(interface)@ + link_warnings(linker@, imports@),
    {
        let mut traps: Vec<bool> = Vec::new();
        let n = imports.len();
        let mut i: usize = 0;
        assert(interface@ =~= old(interface)@ + link_warnings(linker@, imports@.subrange(0, 0)));
        while i < n
            invariant
                n == imports@.len(),
                i <= n,
                traps@.len() == i,
                forall|j: int|
                    0 <= j < i ==> #[trigger] traps@[j] == !defines(
                        linker@,
                        imports@[j].module@,
                        imports@[j].name@,
                    ),
                interface@ == old(interface)@ + link_warnings(linker@, imports@.subrange(0, i as int)),
            decreases n - i,
        {
            proof {
                assert(imports@.subrange(0, i + 1).drop_last() =~= imports@.subrange(0, i as int));
            }
            let ghost before = interface@;
            let offered = linker.get(imports[i].module.as_str(), imports[i].name.as_str()).is_some();
            if !offered {
                let mut text = concat("Unimplemented API `", imports[i].name.as_str());
                text.append("` (Robot code will crash if this is used)");
                assert(text@ =~= unimplemented_warning(imports@[i as int].name@));
                interface.send(SimulatorEvent::Warning(text));
            }
            traps.push(!offered);
            i = i + 1;
            assert(interface@ =~= old(interface)@ + link_warnings(
                linker@,
                imports@.subrange(0, i as int),
            ));
        }
        assert(imports@.subrange(0, n as int) =~= imports@);
        traps
    }
}

/// Everything that the simulator offers, under its name: the shared memory
/// and the functions of each group.
pub open spec fn api_items() -> Seq<(&'static str, HostItem)> {
    seq![("memory", HostItem::Memory)] + llemu::llemu_items() + misc::misc_items()
        + motors::motors_items() + rtos_facilities::rtos_facilities_items()
        + generic_io::generic_io_items()
}

/// What tells the names that the simulator offers apart: the length of a
/// name, its last character but one and its last character but three.
pub open spec fn name_mark(name: Seq<char>) -> (int, char, char) {
    (name.len() as int, name[name.len() - 2], name[name.len() - 4])
}

/// The mark of the name at index `i` of [`api_items`].
spec fn api_mark(i: int) -> (int, char, char) {
    if i == 0 {
        (6int, 'r', 'm')
    } else if i == 1 {
        (14int, 'z', 'l')
    } else if i == 2 {
        (12int, 'x', 't')
    } else if i == 3 {
        (14int, 'n', 'l')
    } else if i == 4 {
        (9int, 'a', 'l')
    } else if i == 5 {
        (20int, 'c', '0')
    } else if i == 6 {
        (20int, 'c', '1')
    } else if i == 7 {
        (20int, 'c', '2')
    } else if i == 8 {
        (21int, 'o', 'a')
    } else if i == 9 {
        (22int, 'a', 'i')
    } else if i == 10 {
        (32int, 's', 'r')
    } else if i == 11 {
        (23int, 'e', 'c')
    } else if i == 12 {
        (31int, 't', 'c')
    } else if i == 13 {
        (28int, 'e', 'e')
    } else if i == 14 {
        (22int, 'u', 'a')
    } else if i == 15 {
        (25int, 'u', 'm')
    } else if i == 16 {
        (24int, 'e', 'c')
    } else if i == 17 {
        (23int, 'e', 'b')
    } else if i == 18 {
        (10int, 'v', 'm')
    } else if i == 19 {
        (20int, 'd', 'm')
    } else if i == 20 {
        (23int, 't', 'n')
    } else if i == 21 {
        (12int, 't', 'e')
    } else if i == 22 {
        (12int, 't', 'l')
    } else if i == 23 {
        (10int, 'v', 'g')
    } else if i == 24 {
        (10int, 'k', 't')
    } else if i == 25 {
        (34int, 'e', 'n')
    } else if i == 26 {
        (33int, 'e', 'n')
    } else if i == 27 {
        (16int, 'n', 'r')
    } else if i == 28 {
        (5int, 'a', 'e')
    } else if i == 29 {
        (10int, 'a', 'e')
    } else if i == 30 {
        (16int, 'i', 'n')
    } else if i == 31 {
        (16int, 'l', '_')
    } else if i == 32 {
        (15int, 'l', '_')
    } else if i == 33 {
        (6int, 'i', 'l')
    } else if i == 34 {
        (11int, 't', 'e')
    } else if i == 35 {
        (11int, 't', 'l')
    } else if i == 36 {
        (13int, 'm', 'n')
    } else if i == 37 {
        (7int, 'n', 'r')
    } else if i == 38 {
        (9int, 'r', 'b')
    } else if i == 39 {
        (4int, 't', 'p')
    } else if i == 40 {
        (5int, 't', 'r')
    } else if i == 41 {
        (4int, 'i', 'e')
    } else {
        (17int, 'c', 'r')
    }
}

/// Each name that the simulator offers has the mark that [`api_mark`] gives
/// for its index.
proof fn lemma_api_marks(i: int)
    requires
        0 <= i < api_items().len(),
    ensures
        api_items().len() == 43,
        name_mark(api_items()[i].0@) == api_mark(i),
{
    reveal_strlit("memory");
    reveal_strlit("lcd_initialize");
    reveal_strlit("lcd_set_text");
    reveal_strlit("lcd_clear_line");
    reveal_strlit("lcd_clear");
    reveal_strlit("lcd_register_btn0_cb");
    reveal_strlit("lcd_register_btn1_cb");
    reveal_strlit("lcd_register_btn2_cb");
    reveal_strlit("controller_get_analog");
    reveal_strlit("controller_get_digital");
    reveal_strlit("controller_get_digital_new_press");
    reveal_strlit("controller_is_connected");
    reveal_strlit("controller_get_battery_capacity");
    reveal_strlit("controller_get_battery_level");
    reveal_strlit("competition_get_status");
    reveal_strlit("competition_is_autonomous");
    reveal_strlit("competition_is_connected");
    reveal_strlit("competition_is_disabled");
    reveal_strlit("motor_move");
    reveal_strlit("motor_set_brake_mode");
    reveal_strlit("motor_set_encoder_units");
    reveal_strlit("mutex_create");
    reveal_strlit("mutex_delete");
    reveal_strlit("mutex_give");
    reveal_strlit("mutex_take");
    reveal_strlit("pvTaskGetThreadLocalStoragePointer");
    reveal_strlit("vTaskSetThreadLocalStoragePointer");
    reveal_strlit("task_get_current");
    reveal_strlit("delay");
    reveal_strlit("task_delay");
    reveal_strlit("task_delay_until");
    reveal_strlit("rtos_suspend_all");
    reveal_strlit("rtos_resume_all");
    reveal_strlit("millis");
    reveal_strlit("task_create");
    reveal_strlit("task_delete");
    reveal_strlit("task_get_name");
    reveal_strlit("__errno");
    reveal_strlit("sim_abort");
    reveal_strlit("puts");
    reveal_strlit("write");
    reveal_strlit("exit");
    reveal_strlit("sim_log_backtrace");
}

/// No two marks of [`api_mark`] are the same.
proof fn lemma_api_marks_differ(i: int, j: int)
    requires
        0 <= i < j < 43,
    ensures
        api_mark(i) != api_mark(j),
{
}

/// The simulator offers every item under a name of its own: its names are
/// distinct, so that they can all be defined in one linker.
pub proof fn lemma_api_names_are_distinct()
    ensures
        distinct(env_items(api_items())),
        distinct_from(Seq::<Definition>::empty(), env_items(api_items())),
{
    let items = env_items(api_items());
    assert forall|i: int, j: int| 0 <= i < j < items.len() implies !((#[trigger] items[i]).module == (
    #[trigger] items[j]).module && items[i].name == items[j].name) by {
        lemma_api_marks(i);
        lemma_api_marks(j);
        lemma_api_marks_differ(i, j);
    }
}

/// The names of one group of functions are distinct: the group is the part
/// of [`api_items`] from index `from` on.
pub proof fn lemma_group_names_are_distinct(group: Seq<(&'static str, HostItem)>, from: int)
    requires
        0 <= from,
        from + group.len() <= api_items().len(),
        group == api_items().subrange(from, from + group.len()),
    ensures
        distinct_from(Seq::<Definition>::empty(), env_items(group)),
{
    lemma_api_names_are_distinct();
    let all = env_items(api_items());
    let part = env_items(group);
    assert forall|i: int, j: int| 0 <= i < j < part.len() implies !((#[trigger] part[i]).module == (
    #[trigger] part[j]).module && part[i].name == part[j].name) by {
        assert(part[i] == all[from + i] && part[j] == all[from + j]);
    }
}

/// Everything that the simulator offers, under its name: the shared memory
/// and the functions of each group.
pub fn api() -> (items: Vec<(&'static str, HostItem)>)
    ensures
        items@ == api_items(),
{
    let mut items: Vec<(&'static str, HostItem)> = Vec::new();
    items.push(("memory", HostItem::Memory));
    let mut group = llemu::llemu_api();
    items.append(&mut group);
    let mut group = misc::misc_api();
    items.append(&mut group);
    let mut group = motors::motors_api();
    items.append(&mut group);
    let mut group = rtos_facilities::rtos_facilities_api();
    items.append(&mut group);
    let mut group = generic_io::generic_io_api();
    items.append(&mut group);
    assert(items@ =~= api_items());
    items
}

/// Offers the shared memory and every function of the simulator. A linker
/// that offers nothing yet takes them all. An error where one of the names
/// is defined already: the items before that one have been defined.
pub fn configure_api(linker: &mut Linker) -> (done: Result<(), AlreadyDefinedError>)
    ensures
        old(linker)@.len() == 0 ==> done is Ok,
        done is Ok <==> distinct_from(old(linker)@, env_items(api_items())),
        done is Ok ==> final(linker)@ == old(linker)@ + env_items(api_items()),
        done is Err ==> exists|k: int|
            0 <= k < api_items().len() && final(linker)@ == old(linker)@ + env_items(
                api_items().subrange(0, k),
            ),
{
    proof {
        lemma_api_names_are_distinct();
        if linker@.len() == 0 {
            assert(linker@ =~= Seq::<Definition>::empty());
        }
    }
    linker.define_all(&api())
}

} // verus!
