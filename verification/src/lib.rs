//! Control of four indicator outputs over Bluetooth Low Energy.
//!
//! A peripheral exposes a one-byte mask characteristic; a host worker scans,
//! connects and writes the mask; a user interface sends the worker commands
//! and shows what comes back. Each of the three is a step function from a
//! state and an input to the next state and the effects to perform, so that
//! the radio, the timers, the channels and the widgets stay with the caller.
//!
//! - [`mask`]: the mask byte and the four outputs.
//! - [`peripheral`]: the peripheral's advertise, serve and disconnect cycle.
//! - [`device`]: scan results and the order in which they are listed.
//! - [`identifier`], [`gatt`]: services and characteristics.
//! - [`message`]: commands to the worker and messages from it.
//! - [`worker`], [`worker_laws`]: the host worker and what holds of it.
//! - [`ui`]: the user interface without its widgets.
//! - [`link_laws`]: what holds between host and peripheral.
//! - [`text`]: numbers and log lines as text.

pub mod device;
pub mod gatt;
pub mod identifier;
pub mod link_laws;
pub mod mask;
pub mod message;
pub mod peripheral;
pub mod text;
pub mod ui;
pub mod worker;
pub mod worker_laws;
