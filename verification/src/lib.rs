//! Core logic of a shunt-current acquisition tool.
//!
//! A battery-monitoring peripheral reports raw ADC codes as comma-separated
//! text records, over a serial link or over BLE notifications.  This crate
//! holds the verified part of the tool: splitting and validating a record,
//! selecting the channel fields to convert, assembling output lines, and the
//! decisions of the two acquisition front-ends (which peripheral to connect
//! to, which characteristic to subscribe to, whether to open a port or list
//! the available ones).  The analog front-end arithmetic itself works on
//! floating-point values and lives with the I/O drivers, outside this crate.

pub mod ble;
pub mod fields;
pub mod parse;
pub mod render;
pub mod serial;
pub mod sink;
