//! Implements a logger over serial
//!
//! A record goes out over USB serial as a color escape for its level, the
//! message, and an affix that resets the color and ends the line.

use crate::hardware::{Hardware, HardwareView};
use vstd::prelude::*;
use vstd::string::StringSliceAdditionalSpecFns;

verus! {

/// How serious a record is.
#[derive(Debug, Clone, Copy, PartialEq, Eq, Structural)]
pub enum Level {
    Error,
    Warn,
    Info,
    Debug,
    Trace,
}

/// The color escape code for `level`.
pub open spec fn coloring(level: Level) -> &'static str {
    match level {
        Level::Error => "\x1b[31;1m",
        Level::Warn => "\x1b[33;1m",
        Level::Info => "\x1b[37m",
        Level::Debug => "\x1b[35m",
        Level::Trace => "\x1b[36m",
    }
}

/// The trailing part of a record: color reset, carriage return, newline.
pub open spec fn affix() -> &'static str {
    "\x1b[0m\r\n"
}

/// The broker after `text` was written to its USB manager. Where the
/// manager is checked out nothing is written.
pub open spec fn written(hardware: HardwareView, text: &str) -> HardwareView {
    match hardware.usb {
        Some(outgoing) => HardwareView { usb: Some(outgoing + text.spec_bytes()), ..hardware },
        None => hardware,
    }
}

/// Implements a logger for the log crate
#[derive(Debug)]
pub struct SerialLogger {}

impl SerialLogger {
    /// Creates a new logger
    pub fn new() -> SerialLogger {
        SerialLogger {  }
    }

    /// Writes `text` to the USB manager of `hardware`, if both are there.
    fn write(hardware: Option<&mut Hardware>, text: &str)
        ensures
            hardware matches Some(board) ==> final(board)@ =~= written(board@, text),
    {
        // Skip this if hardware isn't set up yet
        let Some(hardware) = hardware else {
            return ;
        };
        let Some(usb) = hardware.get_usb_mut() else {
            return ;
        };
        usb.write_str(text);
    }

    /// Write the trailing part of the message
    ///
    /// This part will reset color code, then add a carriage return and newline.
    pub fn write_affix(hardware: Option<&mut Hardware>)
        ensures
            hardware matches Some(board) ==> final(board)@ =~= written(board@, affix()),
    {
        Self::write(hardware, "\x1b[0m\r\n")
    }

    /// Writes the color escape code for this log level
    pub fn write_coloring(hardware: Option<&mut Hardware>, level: &Level)
        ensures
            hardware matches Some(board) ==> final(board)@ =~= written(board@, coloring(*level)),
    {
        let color_string = match level {
            Level::Error => "\x1b[31;1m",
            Level::Warn => "\x1b[33;1m",
            Level::Info => "\x1b[37m",
            Level::Debug => "\x1b[35m",
            Level::Trace => "\x1b[36m",
        };
        Self::write(hardware, color_string)
    }

    /// Write the message part of the log
    pub fn write_message(hardware: Option<&mut Hardware>, message: &str)
        ensures
            hardware matches Some(board) ==> final(board)@ =~= written(board@, message),
    {
        Self::write(hardware, message)
    }

    /// Whether records of `level` are logged: all are.
    pub fn enabled(&self, level: &Level) -> (enabled: bool)
        ensures
            enabled,
    {
        true
    }

    /// Writes one record: coloring, message, affix.
    pub fn log(&self, hardware: Option<&mut Hardware>, level: &Level, message: &str)
        ensures
            hardware matches Some(board) ==> final(board)@ =~= written(
                written(written(board@, coloring(*level)), message),
                affix(),
            ),
    {
        let Some(hardware) = hardware else {
            return ;
        };
        Self::write_coloring(Some(&mut *hardware), level);
        Self::write_message(Some(&mut *hardware), message);
        Self::write_affix(Some(&mut *hardware));
    }
}

impl Default for SerialLogger {
    fn default() -> SerialLogger {
        SerialLogger::new()
    }
}

} // verus!
