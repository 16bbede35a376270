//! The numbers that robot code and the simulator agree on: identifiers of
//! controllers, buttons and joystick axes, error codes and status bits.
use vstd::prelude::*;

verus! {

/// A timeout that never expires.
pub const TIMEOUT_MAX: u32 = 0xFFFF_FFFF;

/// Identifier of the master controller.
pub const E_CONTROLLER_MASTER: u32 = 1;

/// Identifier of the partner controller.
pub const E_CONTROLLER_PARTNER: u32 = 2;

/// The horizontal axis of the left joystick.
pub const E_CONTROLLER_ANALOG_LEFT_X: u32 = 0;

/// The vertical axis of the left joystick.
pub const E_CONTROLLER_ANALOG_LEFT_Y: u32 = 1;

/// The horizontal axis of the right joystick.
pub const E_CONTROLLER_ANALOG_RIGHT_X: u32 = 2;

/// The vertical axis of the right joystick.
pub const E_CONTROLLER_ANALOG_RIGHT_Y: u32 = 3;

/// The first left shoulder button, the first of the buttons: every number
/// from here to [`E_CONTROLLER_DIGITAL_A`] names a button.
pub const E_CONTROLLER_DIGITAL_L1: u32 = 6;

/// The second left shoulder button.
pub const E_CONTROLLER_DIGITAL_L2: u32 = 7;

/// The first right shoulder button.
pub const E_CONTROLLER_DIGITAL_R1: u32 = 8;

/// The second right shoulder button.
pub const E_CONTROLLER_DIGITAL_R2: u32 = 9;

/// The arrow pad, up.
pub const E_CONTROLLER_DIGITAL_UP: u32 = 10;

/// The arrow pad, down.
pub const E_CONTROLLER_DIGITAL_DOWN: u32 = 11;

/// The arrow pad, left.
pub const E_CONTROLLER_DIGITAL_LEFT: u32 = 12;

/// The arrow pad, right.
pub const E_CONTROLLER_DIGITAL_RIGHT: u32 = 13;

/// The button X.
pub const E_CONTROLLER_DIGITAL_X: u32 = 14;

/// The button B.
pub const E_CONTROLLER_DIGITAL_B: u32 = 15;

/// The button Y.
pub const E_CONTROLLER_DIGITAL_Y: u32 = 16;

/// The button A, the last of the buttons.
pub const E_CONTROLLER_DIGITAL_A: u32 = 17;

/// No such device or address.
pub const ENXIO: i32 = 6;

/// Bad file descriptor.
pub const EBADF: i32 = 9;

/// No such device.
pub const ENODEV: i32 = 19;

/// Invalid argument.
pub const EINVAL: i32 = 22;

/// What a host call that answers with a number returns in place of the
/// number when it fails; `errno` says why.
pub const PROS_ERR: i32 = 0x7FFF_FFFF;

/// Status bit: the robot is in the autonomous period.
pub const COMPETITION_AUTONOMOUS: u8 = 0x01;

/// Status bit: the robot is disabled.
pub const COMPETITION_DISABLED: u8 = 0x02;

/// Status bit: the robot is connected to competition control.
pub const COMPETITION_CONNECTED: u8 = 0x04;

/// The export of robot code through which the simulator allocates memory:
/// `wasm_memalign(alignment, size)` returns a pointer.
pub const WASM_MEMALIGN: &'static str = "wasm_memalign";

/// The export of robot code through which the simulator gives memory back:
/// `wasm_free(pointer)`.
pub const WASM_FREE: &'static str = "wasm_free";

/// The export of robot code that turns function pointers into functions.
pub const INDIRECT_FUNCTION_TABLE: &'static str = "__indirect_function_table";

} // verus!
