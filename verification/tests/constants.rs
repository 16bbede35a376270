use pros_simulator::abi::{
    COMPETITION_AUTONOMOUS, COMPETITION_CONNECTED, COMPETITION_DISABLED, EBADF, EINVAL, ENXIO,
    E_CONTROLLER_ANALOG_LEFT_X, E_CONTROLLER_ANALOG_LEFT_Y, E_CONTROLLER_ANALOG_RIGHT_X,
    E_CONTROLLER_ANALOG_RIGHT_Y, E_CONTROLLER_DIGITAL_A, E_CONTROLLER_DIGITAL_B,
    E_CONTROLLER_DIGITAL_DOWN, E_CONTROLLER_DIGITAL_L1, E_CONTROLLER_DIGITAL_L2,
    E_CONTROLLER_DIGITAL_LEFT, E_CONTROLLER_DIGITAL_R1, E_CONTROLLER_DIGITAL_R2,
    E_CONTROLLER_DIGITAL_RIGHT, E_CONTROLLER_DIGITAL_UP, E_CONTROLLER_DIGITAL_X,
    E_CONTROLLER_DIGITAL_Y, E_CONTROLLER_MASTER, E_CONTROLLER_PARTNER, TIMEOUT_MAX,
};
use pros_simulator::text;
use pros_simulator::text::{decimal_string, signed_decimal_string};

#[test]
fn guest_abi_numbers() {
    assert_eq!(TIMEOUT_MAX, 0xFFFF_FFFF);
    assert_eq!((E_CONTROLLER_MASTER, E_CONTROLLER_PARTNER), (1, 2));
    assert_eq!((EINVAL, ENXIO, EBADF), (22, 6, 9));
    assert_eq!((COMPETITION_AUTONOMOUS, COMPETITION_DISABLED, COMPETITION_CONNECTED), (1, 2, 4));
}

#[test]
fn numbers_match_the_pros_headers() {
    assert_eq!(TIMEOUT_MAX, pros_sys::TIMEOUT_MAX);
    assert_eq!(EINVAL, pros_sys::error::EINVAL);
    assert_eq!(ENXIO, pros_sys::error::ENXIO);
    assert_eq!(EBADF, pros_sys::error::EBADF);
    assert_eq!(pros_simulator::abi::ENODEV, pros_sys::error::ENODEV);
    assert_eq!(pros_simulator::abi::PROS_ERR, pros_sys::error::PROS_ERR);
    assert_eq!(COMPETITION_AUTONOMOUS, pros_sys::misc::COMPETITION_AUTONOMOUS);
    assert_eq!(COMPETITION_DISABLED, pros_sys::misc::COMPETITION_DISABLED);
    assert_eq!(COMPETITION_CONNECTED, pros_sys::misc::COMPETITION_CONNECTED);
    assert_eq!(E_CONTROLLER_ANALOG_LEFT_X, pros_sys::misc::E_CONTROLLER_ANALOG_LEFT_X);
    assert_eq!(E_CONTROLLER_ANALOG_LEFT_Y, pros_sys::misc::E_CONTROLLER_ANALOG_LEFT_Y);
    assert_eq!(E_CONTROLLER_ANALOG_RIGHT_X, pros_sys::misc::E_CONTROLLER_ANALOG_RIGHT_X);
    assert_eq!(E_CONTROLLER_ANALOG_RIGHT_Y, pros_sys::misc::E_CONTROLLER_ANALOG_RIGHT_Y);
    assert_eq!(E_CONTROLLER_DIGITAL_L1, pros_sys::misc::E_CONTROLLER_DIGITAL_L1);
    assert_eq!(E_CONTROLLER_DIGITAL_L2, pros_sys::misc::E_CONTROLLER_DIGITAL_L2);
    assert_eq!(E_CONTROLLER_DIGITAL_R1, pros_sys::misc::E_CONTROLLER_DIGITAL_R1);
    assert_eq!(E_CONTROLLER_DIGITAL_R2, pros_sys::misc::E_CONTROLLER_DIGITAL_R2);
    assert_eq!(E_CONTROLLER_DIGITAL_UP, pros_sys::misc::E_CONTROLLER_DIGITAL_UP);
    assert_eq!(E_CONTROLLER_DIGITAL_DOWN, pros_sys::misc::E_CONTROLLER_DIGITAL_DOWN);
    assert_eq!(E_CONTROLLER_DIGITAL_LEFT, pros_sys::misc::E_CONTROLLER_DIGITAL_LEFT);
    assert_eq!(E_CONTROLLER_DIGITAL_RIGHT, pros_sys::misc::E_CONTROLLER_DIGITAL_RIGHT);
    assert_eq!(E_CONTROLLER_DIGITAL_X, pros_sys::misc::E_CONTROLLER_DIGITAL_X);
    assert_eq!(E_CONTROLLER_DIGITAL_B, pros_sys::misc::E_CONTROLLER_DIGITAL_B);
    assert_eq!(E_CONTROLLER_DIGITAL_Y, pros_sys::misc::E_CONTROLLER_DIGITAL_Y);
    assert_eq!(E_CONTROLLER_DIGITAL_A, pros_sys::misc::E_CONTROLLER_DIGITAL_A);
}

#[test]
fn decimal_text() {
    assert_eq!(decimal_string(0), "0");
    assert_eq!(decimal_string(7), "7");
    assert_eq!(decimal_string(10), "10");
    assert_eq!(decimal_string(1_234_567_890), "1234567890");
    assert_eq!(decimal_string(u32::MAX), "4294967295");
    assert_eq!(signed_decimal_string(0), "0");
    assert_eq!(signed_decimal_string(-1), "-1");
    assert_eq!(signed_decimal_string(200), "200");
    assert_eq!(signed_decimal_string(i32::MIN), "-2147483648");
    assert_eq!(signed_decimal_string(i32::MAX), "2147483647");
    assert_eq!(text::concat("task ", "3"), "task 3");
}

#[test]
fn guest_exports() {
    assert_eq!(pros_simulator::abi::WASM_MEMALIGN, "wasm_memalign");
    assert_eq!(pros_simulator::abi::WASM_FREE, "wasm_free");
    assert_eq!(pros_simulator::abi::INDIRECT_FUNCTION_TABLE, "__indirect_function_table");
}
