use vstd::prelude::*;

verus! {

/// The severity threshold of the diagnostic log sink.
#[derive(Clone, Copy, PartialEq, Eq, Structural, Debug)]
pub enum LogLevel {
    Error,
    Warn,
    Info,
    Debug,
    Trace,
}

impl LogLevel {
    /// The wire numbering of log levels, lowest severity threshold first.
    pub open spec fn spec_from_wire(level: u32) -> Option<LogLevel> {
    if level == 0 {
        Some(LogLevel::Error)
    } else if level == 1 {
        Some(LogLevel::Warn)
    } else if level == 2 {
        Some(LogLevel::Info)
    } else if level == 3 {
        Some(LogLevel::Debug)
    } else if level == 4 {
        Some(LogLevel::Trace)
    } else {
        None
    }
    }

    #[verifier::when_used_as_spec(spec_from_wire)]
    pub fn from_wire(level: u32) -> (r: Option<LogLevel>)
        ensures
            r == LogLevel::spec_from_wire(level),
    {
        if level == 0 {
            Some(LogLevel::Error)
        } else if level == 1 {
            Some(LogLevel::Warn)
        } else if level == 2 {
            Some(LogLevel::Info)
        } else if level == 3 {
            Some(LogLevel::Debug)
        } else if level == 4 {
            Some(LogLevel::Trace)
        } else {
            None
        }
    }
}

/// Server-wide state the protocol runtime reads and adjusts: whether the
/// event loop keeps running, the diagnostic severity threshold, and the
/// path of the log file advertised to control clients.
pub struct State {
    pub running: bool,
    pub log_level: LogLevel,
    pub log_path: String,
}

impl State {
    pub fn new(log_path: String) -> (r: Self)
        ensures
            r.running == true,
            r.log_level == LogLevel::Info,
            r.log_path == log_path,
    {
        State { running: true, log_level: LogLevel::Info, log_path }
    }
}

} // verus!
