use zephyr_ffi::device::DriverApi;
use zephyr_ffi::io::{nul_terminated, DebugWriter};
use zephyr_ffi::uart::{
    flag_register_address, poll_in_result, rx_empty, FR, POLL_IN_NO_DATA, POLL_IN_OK,
    UARTFR_RXFE,
};

struct TestApi;
impl DriverApi for TestApi {}

fn takes_api<T: DriverApi>(_t: &T) -> bool {
    true
}

#[test]
fn driver_api_marks_a_type() {
    assert!(takes_api(&TestApi));
}

#[test]
fn debug_writer_default() {
    let _w: DebugWriter = DebugWriter::default();
}

#[test]
fn c_strings() {
    assert_eq!(nul_terminated("Hello from Rust."), b"Hello from Rust.\0".to_vec());
    assert_eq!(nul_terminated(""), vec![0u8]);
    assert_eq!(nul_terminated("%s"), b"%s\0".to_vec());
}

#[test]
fn uart_registers() {
    assert_eq!(FR, 0x18);
    assert_eq!(UARTFR_RXFE, 0x10);
    assert_eq!(flag_register_address(0x4000_c000), 0x4000_c018);
}

#[test]
fn rx_fifo_empty_flag() {
    assert!(rx_empty(0x10));
    assert!(rx_empty(0xff));
    assert!(!rx_empty(0));
    assert!(!rx_empty(0xef));
    assert!(!rx_empty(0x80));
}

#[test]
fn poll_in_outcomes() {
    assert_eq!(poll_in_result(0x10, 0x41), (-1, None));
    assert_eq!(poll_in_result(0x10, 0x41).0, POLL_IN_NO_DATA);
    assert_eq!(poll_in_result(0x00, 0x41), (0, Some(b'A')));
    assert_eq!(poll_in_result(0x90, 0x1_0042), (-1, None));
    assert_eq!(poll_in_result(0x80, 0x1_0042), (POLL_IN_OK, Some(0x42)));
}
