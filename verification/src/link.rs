//! The fixed settings of the serial link to the meter and of the polling
//! timer. The frame format on the line is eight data bits, no parity and one
//! stop bit.

use vstd::prelude::*;

verus! {

/// Path of the serial device that the meter is attached to.
pub const SERIAL_DEVICE: &'static str = "/dev/serial0";

/// Speed of the serial line in bits per second.
pub const BAUD_RATE: u32 = 38400;

/// Modbus unit address of the meter.
pub const SLAVE_ID: u8 = 0x01;

/// Time between the starts of two polling cycles, in milliseconds.
pub const POLL_PERIOD_MS: u64 = 100;

} // verus!
