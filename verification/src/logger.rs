//! The logging collaborator contract: leveled messages, with an ordered
//! severity scale for threshold filtering. Formatting and output are a
//! collaborator's job; the core only decides and calls.

use vstd::prelude::*;

verus! {

#[derive(Debug, Clone, PartialEq, Eq, Structural)]
pub enum LogLevel {
    Debug,
    Info,
    Warn,
    Error,
}

impl LogLevel {
    /// The position of a level on the severity scale, `Debug` lowest.
    pub open spec fn spec_severity(self) -> u8 {
        match self {
            LogLevel::Debug => 0,
            LogLevel::Info => 1,
            LogLevel::Warn => 2,
            LogLevel::Error => 3,
        }
    }

    pub fn severity(&self) -> (r: u8)
        ensures
            r == self.spec_severity(),
    {
        match self {
            LogLevel::Debug => 0,
            LogLevel::Info => 1,
            LogLevel::Warn => 2,
            LogLevel::Error => 3,
        }
    }
}

/// Whether a message of severity `level` passes an output threshold:
/// it does iff it is at least as severe as the threshold.
pub fn should_log(level: &LogLevel, threshold: &LogLevel) -> (r: bool)
    ensures
        r == (level.spec_severity() >= threshold.spec_severity()),
{
    level.severity() >= threshold.severity()
}

pub trait Logger {
    fn log(&self, log_level: LogLevel, msg: &str);

    fn log_debug(&self, msg: &str) {
        self.log(LogLevel::Debug, msg)
    }

    fn log_info(&self, msg: &str) {
        self.log(LogLevel::Info, msg)
    }

    fn log_warn(&self, msg: &str) {
        self.log(LogLevel::Warn, msg)
    }

    fn log_error(&self, msg: &str) {
        self.log(LogLevel::Error, msg)
    }
}

} // verus!
