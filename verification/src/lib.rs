//! Peripheral broker and PIO lifecycle controller for a microcontroller with
//! two programmable-I/O blocks of four state machines each.
//!
//! The crate holds the bookkeeping and the rules: which resource is checked
//! out, which state machine is bound to which program, which transition is
//! legal. Register access is left to the caller.

mod critical;
pub mod hardware;
pub mod pio;
pub mod program;
pub mod resource;
pub mod rx;
pub mod serial_logger;
pub mod state_machine;
pub mod tx;
pub mod usb_manager;
