//! The logging plan: which severity filter and which destination a
//! process-wide logger is to be initialized with.
//!
//! Performing the initialization — opening a file, claiming the
//! process-wide logger slot — is the surrounding program's work; this
//! module makes the decision. A numeric severity maps onto a filter level,
//! any number outside the known range switching logging off, and the
//! destination name "stdout" or "stderr" selects the matching stream while
//! any other well-formed name names a file.

use vstd::prelude::*;

use crate::utf8::is_utf8;
use crate::utf8::utf8_valid;

verus! {

/// A severity filter level for the process-wide logger.
#[derive(Debug, Clone, Copy, PartialEq, Eq, Structural)]
pub enum LogLevel {
    Error,
    Warn,
    Info,
    Debug,
    Trace,
    Off,
}

/// The filter level selected by a numeric severity.
pub open spec fn level_of(level: int) -> LogLevel {
    if level == 0 {
        LogLevel::Error
    } else if level == 1 {
        LogLevel::Warn
    } else if level == 2 {
        LogLevel::Info
    } else if level == 3 {
        LogLevel::Debug
    } else if level == 4 {
        LogLevel::Trace
    } else {
        LogLevel::Off
    }
}

/// Where the process-wide logger writes.
#[derive(Debug, PartialEq)]
pub enum LogTarget {
    Stdout,
    Stderr,
    File(Vec<u8>),
}

/// The mathematical value of a [`LogTarget`].
pub enum LogTargetView {
    Stdout,
    Stderr,
    File(Seq<u8>),
}

impl View for LogTarget {
    type V = LogTargetView;

    open spec fn view(&self) -> LogTargetView {
        match self {
            LogTarget::Stdout => LogTargetView::Stdout,
            LogTarget::Stderr => LogTargetView::Stderr,
            LogTarget::File(name) => LogTargetView::File(name@),
        }
    }
}

/// The bytes of the destination name that selects the standard output.
pub open spec fn stdout_name() -> Seq<u8> {
    seq![0x73u8, 0x74u8, 0x64u8, 0x6fu8, 0x75u8, 0x74u8]
}

/// The bytes of the destination name that selects the standard error.
pub open spec fn stderr_name() -> Seq<u8> {
    seq![0x73u8, 0x74u8, 0x64u8, 0x65u8, 0x72u8, 0x72u8]
}

/// The destination selected by a well-formed destination name.
pub open spec fn target_of(name: Seq<u8>) -> LogTargetView {
    if name == stdout_name() {
        LogTargetView::Stdout
    } else if name == stderr_name() {
        LogTargetView::Stderr
    } else {
        LogTargetView::File(name)
    }
}

/// A decided logging plan: the filter level and the destination.
#[derive(Debug, PartialEq)]
pub struct LogPlan {
    pub level: LogLevel,
    pub target: LogTarget,
}

fn bytes_match(bytes: &Vec<u8>, ghost_name: Ghost<Seq<u8>>, b0: u8, b1: u8, b2: u8, b3: u8, b4: u8, b5: u8) -> (r: bool)
    requires
        ghost_name@.len() == 6,
        ghost_name@[0] == b0,
        ghost_name@[1] == b1,
        ghost_name@[2] == b2,
        ghost_name@[3] == b3,
        ghost_name@[4] == b4,
        ghost_name@[5] == b5,
    ensures
        r == (bytes@ == ghost_name@),
{
    if bytes.len() != 6 {
        return false;
    }
    let r = bytes[0] == b0 && bytes[1] == b1 && bytes[2] == b2 && bytes[3] == b3 && bytes[4] == b4
        && bytes[5] == b5;
    proof {
        if r {
            assert(bytes@ =~= ghost_name@);
        }
    }
    r
}

/// Decides the logging plan for a numeric severity and a destination name.
/// There is a plan exactly when the name is present and well-formed UTF-8;
/// the plan then carries the severity's filter level and the destination
/// the name selects.
pub fn nrt_log_plan(level: i32, filename: Option<Vec<u8>>) -> (r: Option<LogPlan>)
    ensures
        (r is Some) == (filename is Some && is_utf8(filename->0@)),
        r matches Some(p) ==> p.level == level_of(level as int) && p.target@ == target_of(
            filename->0@,
        ),
{
    let name = match filename {
        None => {
            return None;
        }
        Some(name) => name,
    };
    if !utf8_valid(&name) {
        return None;
    }
    let level = match level {
        0 => LogLevel::Error,
        1 => LogLevel::Warn,
        2 => LogLevel::Info,
        3 => LogLevel::Debug,
        4 => LogLevel::Trace,
        _ => LogLevel::Off,
    };
    let target = if bytes_match(&name, Ghost(stdout_name()), 0x73, 0x74, 0x64, 0x6f, 0x75, 0x74) {
        LogTarget::Stdout
    } else if bytes_match(&name, Ghost(stderr_name()), 0x73, 0x74, 0x64, 0x65, 0x72, 0x72) {
        LogTarget::Stderr
    } else {
        LogTarget::File(name)
    };
    Some(LogPlan { level, target })
}

} // verus!
