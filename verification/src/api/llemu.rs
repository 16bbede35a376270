//! The legacy LCD emulator, as robot code calls it.
use crate::abi::{EINVAL, ENXIO};
use crate::api::{
    api_items, distinct_from, env_items, lemma_group_names_are_distinct, AlreadyDefinedError,
    Definition, HostFunction, HostItem, Linker,
};
use crate::host::lcd::{blank_lines, line_in_bounds, text_fits, LCD_BUTTONS};
use crate::host::memory::{c_str, SharedMemoryExt};
use crate::host::{Host, HostError, Reply, ResultExt};
use crate::interface::EventView;
use vstd::prelude::*;

verus! {

/// The functions of this group, each under the name that robot code
/// imports it by.
pub open spec fn llemu_items() -> Seq<(&'static str, HostItem)> {
    seq![
        ("lcd_initialize", HostItem::Function(HostFunction::LcdInitialize)),
        ("lcd_set_text", HostItem::Function(HostFunction::LcdSetText)),
        ("lcd_clear_line", HostItem::Function(HostFunction::LcdClearLine)),
        ("lcd_clear", HostItem::Function(HostFunction::LcdClear)),
        ("lcd_register_btn0_cb", HostItem::Function(HostFunction::LcdRegisterBtn0Cb)),
        ("lcd_register_btn1_cb", HostItem::Function(HostFunction::LcdRegisterBtn1Cb)),
        ("lcd_register_btn2_cb", HostItem::Function(HostFunction::LcdRegisterBtn2Cb)),
    ]
}

/// The functions of this group, each under the name that robot code
/// imports it by.
pub fn llemu_api() -> (items: Vec<(&'static str, HostItem)>)
    ensures
        items@ == llemu_items(),
{
    let mut items: Vec<(&'static str, HostItem)> = Vec::new();
    items.push(("lcd_initialize", HostItem::Function(HostFunction::LcdInitialize)));
    items.push(("lcd_set_text", HostItem::Function(HostFunction::LcdSetText)));
    items.push(("lcd_clear_line", HostItem::Function(HostFunction::LcdClearLine)));
    items.push(("lcd_clear", HostItem::Function(HostFunction::LcdClear)));
    items.push(("lcd_register_btn0_cb", HostItem::Function(HostFunction::LcdRegisterBtn0Cb)));
    items.push(("lcd_register_btn1_cb", HostItem::Function(HostFunction::LcdRegisterBtn1Cb)));
    items.push(("lcd_register_btn2_cb", HostItem::Function(HostFunction::LcdRegisterBtn2Cb)));
    assert(items@ =~= llemu_items());
    items
}

/// Offers the functions of the LCD to robot code. An error where one of
/// the names is defined already: the functions before that one have been
/// defined. A linker that offers nothing yet takes them all.
pub fn configure_llemu_api(linker: &mut Linker) -> (done: Result<(), AlreadyDefinedError>)
    ensures
        old(linker)@.len() == 0 ==> done is Ok,
        done is Ok <==> distinct_from(old(linker)@, env_items(llemu_items())),
        done is Ok ==> final(linker)@ == old(linker)@ + env_items(llemu_items()),
        done is Err ==> exists|k: int|
            0 <= k < llemu_items().len() && final(linker)@ == old(linker)@ + env_items(
                llemu_items().subrange(0, k),
            ),
{
    proof {
        let group = llemu_items();
        assert(group =~= api_items().subrange(1, 1 + group.len() as int));
        lemma_group_names_are_distinct(group, 1);
        if linker@.len() == 0 {
            assert(linker@ =~= Seq::<Definition>::empty());
        }
    }
    linker.define_all(&llemu_api())
}

/// `lcd_initialize`: switches the LCD on. Returns 1, or 0 where the LCD
/// was on already.
pub fn lcd_initialize(host: &mut Host) -> (value: u32)
    ensures
        value == if old(host).lcd.initialized() {
            0u32
        } else {
            1u32
        },
        final(host).lcd.initialized(),
        final(host).lcd.lines() == old(host).lcd.lines(),
        final(host).interface@ == if old(host).lcd.initialized() {
            old(host).interface@
        } else {
            old(host).interface@.push(EventView::LcdInitialized)
        },
        old(host).lcd.initialized() ==> final(host).lcd == old(host).lcd,
        final(host).memory == old(host).memory,
        final(host).module == old(host).module,
        final(host).linker == old(host).linker,
        final(host).mutexes == old(host).mutexes,
        final(host).tasks == old(host).tasks,
        final(host).controllers == old(host).controllers,
        final(host).competition_phase == old(host).competition_phase,
        final(host).smart_ports == old(host).smart_ports,
{
    match host.lcd.initialize(&mut host.interface) {
        Ok(()) => 1,
        Err(_) => 0,
    }
}

/// What `lcd_set_text` hands back when the string at the pointer is
/// `text`: 1, or 0 and the error code.
pub open spec fn set_text_reply(initialized: bool, line: i32, text: Seq<char>) -> Reply<u32> {
    if !initialized {
        Reply { value: 0, errno: Some(ENXIO) }
    } else if !line_in_bounds(line) || !text_fits(text) {
        Reply { value: 0, errno: Some(EINVAL) }
    } else {
        Reply { value: 1, errno: None }
    }
}

/// `lcd_set_text`: shows the string at `text_ptr` on the row `line`.
///
/// Returns 1 and reports the new text of the LCD. Returns 0, with
/// `ENXIO` for `errno`, where the LCD is off; otherwise 0 with `EINVAL`
/// where `line` names no row or the string does not fit on a row; an
/// error changes and reports nothing. Traps, and nothing happens, where
/// no string can be read at `text_ptr`.
pub fn lcd_set_text(host: &mut Host, line: i32, text_ptr: u32) -> (reply: Result<Reply<u32>, HostError>)
    ensures
        match c_str(old(host).memory@, text_ptr as int) {
            Err(e) => reply == Err::<Reply<u32>, HostError>(HostError::BadString(e)) && final(host).lcd
                == old(host).lcd && final(host).interface == old(host).interface,
            Ok(text) => {
                &&& reply == Ok::<Reply<u32>, HostError>(
                    set_text_reply(old(host).lcd.initialized(), line, text),
                )
                &&& final(host).lcd.initialized() == old(host).lcd.initialized()
                &&& final(host).lcd.button_presses() == old(host).lcd.button_presses()
                &&& final(host).lcd.button_callbacks() == old(host).lcd.button_callbacks()
                &&& final(host).lcd.lines() == if reply.unwrap().value == 1 {
                    old(host).lcd.lines().update(line as int, text)
                } else {
                    old(host).lcd.lines()
                }
                &&& final(host).interface@ == if reply.unwrap().value == 1 {
                    old(host).interface@.push(EventView::LcdUpdated(final(host).lcd.lines()))
                } else {
                    old(host).interface@
                }
            },
        },
        final(host).memory == old(host).memory,
        final(host).module == old(host).module,
        final(host).linker == old(host).linker,
        final(host).mutexes == old(host).mutexes,
        final(host).tasks == old(host).tasks,
        final(host).controllers == old(host).controllers,
        final(host).competition_phase == old(host).competition_phase,
        final(host).smart_ports == old(host).smart_ports,
{
    let text = match host.memory.read_c_str(text_ptr) {
        Ok(text) => text,
        Err(e) => {
            return Err(HostError::BadString(e));
        },
    };
    let res = host.lcd.set_line(&mut host.interface, line, text.as_str());
    let reply = res.unwrap_or_errno();
    Ok(Reply { value: if reply.value { 1 } else { 0 }, errno: reply.errno })
}

/// `lcd_clear_line`: blanks the row `line`. Returns 1 and reports the new
/// text of the LCD. Returns 0, with `ENXIO` for `errno`, where the LCD is
/// off; otherwise 0 with `EINVAL` where `line` names no row; an error
/// changes and reports nothing.
pub fn lcd_clear_line(host: &mut Host, line: i32) -> (reply: Reply<u32>)
    ensures
        reply == if !old(host).lcd.initialized() {
            Reply { value: 0u32, errno: Some(ENXIO) }
        } else if !line_in_bounds(line) {
            Reply { value: 0u32, errno: Some(EINVAL) }
        } else {
            Reply { value: 1u32, errno: None }
        },
        final(host).lcd.initialized() == old(host).lcd.initialized(),
        final(host).lcd.button_presses() == old(host).lcd.button_presses(),
        final(host).lcd.button_callbacks() == old(host).lcd.button_callbacks(),
        final(host).lcd.lines() == if reply.value == 1 {
            old(host).lcd.lines().update(line as int, Seq::<char>::empty())
        } else {
            old(host).lcd.lines()
        },
        final(host).interface@ == if reply.value == 1 {
            old(host).interface@.push(EventView::LcdUpdated(final(host).lcd.lines()))
        } else {
            old(host).interface@
        },
        final(host).memory == old(host).memory,
        final(host).module == old(host).module,
        final(host).linker == old(host).linker,
        final(host).mutexes == old(host).mutexes,
        final(host).tasks == old(host).tasks,
        final(host).controllers == old(host).controllers,
        final(host).competition_phase == old(host).competition_phase,
        final(host).smart_ports == old(host).smart_ports,
{
    let res = host.lcd.clear_line(&mut host.interface, line);
    let reply = res.unwrap_or_errno();
    Reply { value: if reply.value { 1 } else { 0 }, errno: reply.errno }
}

/// `lcd_clear`: blanks every row. Returns 1 and reports the new text of
/// the LCD. Returns 0, with `ENXIO` for `errno`, and nothing happens,
/// where the LCD is off.
pub fn lcd_clear(host: &mut Host) -> (reply: Reply<u32>)
    ensures
        reply == if old(host).lcd.initialized() {
            Reply { value: 1u32, errno: None }
        } else {
            Reply { value: 0u32, errno: Some(ENXIO) }
        },
        final(host).lcd.initialized() == old(host).lcd.initialized(),
        final(host).lcd.button_presses() == old(host).lcd.button_presses(),
        final(host).lcd.button_callbacks() == old(host).lcd.button_callbacks(),
        final(host).lcd.lines() == if reply.value == 1 {
            blank_lines()
        } else {
            old(host).lcd.lines()
        },
        final(host).interface@ == if reply.value == 1 {
            old(host).interface@.push(EventView::LcdUpdated(blank_lines()))
        } else {
            old(host).interface@
        },
        final(host).memory == old(host).memory,
        final(host).module == old(host).module,
        final(host).linker == old(host).linker,
        final(host).mutexes == old(host).mutexes,
        final(host).tasks == old(host).tasks,
        final(host).controllers == old(host).controllers,
        final(host).competition_phase == old(host).competition_phase,
        final(host).smart_ports == old(host).smart_ports,
{
    let res = host.lcd.clear(&mut host.interface);
    let reply = res.unwrap_or_errno();
    Reply { value: if reply.value { 1 } else { 0 }, errno: reply.errno }
}

/// `lcd_register_btn0_cb`, `lcd_register_btn1_cb`, `lcd_register_btn2_cb`:
/// registers the function at index `cb` of the indirect function table as
/// the callback of the button `lcd_button`. Returns 1. Returns 0, with
/// `ENXIO` for `errno`, and nothing changes, where the LCD is off.
pub fn lcd_register_btn_cb(host: &mut Host, lcd_button: usize, cb: u32) -> (reply: Reply<u32>)
    requires
        lcd_button < LCD_BUTTONS,
    ensures
        reply == if old(host).lcd.initialized() {
            Reply { value: 1u32, errno: None }
        } else {
            Reply { value: 0u32, errno: Some(ENXIO) }
        },
        final(host).lcd.initialized() == old(host).lcd.initialized(),
        final(host).lcd.lines() == old(host).lcd.lines(),
        final(host).lcd.button_presses() == old(host).lcd.button_presses(),
        final(host).lcd.button_callbacks() == if reply.value == 1 {
            old(host).lcd.button_callbacks().update(lcd_button as int, Some(cb))
        } else {
            old(host).lcd.button_callbacks()
        },
        final(host).interface == old(host).interface,
        final(host).memory == old(host).memory,
        final(host).module == old(host).module,
        final(host).linker == old(host).linker,
        final(host).mutexes == old(host).mutexes,
        final(host).tasks == old(host).tasks,
        final(host).controllers == old(host).controllers,
        final(host).competition_phase == old(host).competition_phase,
        final(host).smart_ports == old(host).smart_ports,
{
    let res = host.lcd.set_btn_press_callback(lcd_button, cb);
    let reply = res.unwrap_or_errno();
    Reply { value: if reply.value { 1 } else { 0 }, errno: reply.errno }
}

} // verus!
