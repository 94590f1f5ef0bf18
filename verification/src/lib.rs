//! Polling logic for a three-phase energy meter read over Modbus RTU.
//!
//! The meter exposes its measurements as pairs of input registers. This
//! library holds the register catalog, the decoding of a register pair into
//! the bit pattern of a measurement, the text line that reports a
//! measurement, and the decisions of the polling loop. Opening the serial
//! port, waiting for the timer and talking to the meter are left to the
//! program that drives the loop.

pub mod decode;
pub mod input_register;
pub mod link;
pub mod poll;
pub mod report;
