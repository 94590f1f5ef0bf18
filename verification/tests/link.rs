use meter_poll::link::{BAUD_RATE, POLL_PERIOD_MS, SERIAL_DEVICE, SLAVE_ID};

#[test]
fn link_settings() {
    assert_eq!(SERIAL_DEVICE, "/dev/serial0");
    assert_eq!(BAUD_RATE, 38400);
    assert_eq!(SLAVE_ID, 1);
    assert_eq!(POLL_PERIOD_MS, 100);
}
