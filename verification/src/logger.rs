//! The logging sinks: a mute logger for quiet builds, a verbose logger
//! that writes to the console, and a forwarding logger that hands its text
//! to another logger.

use vstd::prelude::*;
use std::io::Write;
use crate::traits::Logger;

verus! {

/// Writes text to standard output.
///
/// Relies on `std::io::Stdout::write_fmt`, reached through the `write!`
/// macro; nothing is claimed about the write.
#[verifier::external_body]
pub(crate) fn console_write(s: &str) {
    let _ = write!(std::io::stdout(), "{}", s);
}

/// A logger that forwards to the logger it wraps.
#[derive(Debug, Copy, Clone, Default)]
pub struct Logr<L: Logger> {
    _log: L,
}

impl<L: Logger> Logger for Logr<L> {
    fn write(msg: &str) {
        L::write(msg);
    }
}

/// A logger that drops everything.
#[derive(Debug, Copy, Clone, Default)]
pub struct MuteLog {}

impl Logger for MuteLog {
    fn write(_msg: &str) {
    }
}

/// A logger that prints everything to the console.
#[derive(Debug, Copy, Clone, Default)]
pub struct VerboseLog {}

impl Logger for VerboseLog {
    fn write(msg: &str) {
        console_write(msg);
    }
}

} // verus!
