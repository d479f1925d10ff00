//! Verbosity levels and the filter word each one stands for.

use vstd::prelude::*;

verus! {

/// How much the relay reports, from the least to the most verbose.
#[derive(Copy, Clone, PartialEq, Eq, PartialOrd, Ord, Structural, Debug)]
pub enum LogLevel {
    /// Only errors.
    Error,
    /// Warnings and errors.
    Warn,
    /// Informational messages, warnings and errors.
    Info,
    /// Debugging messages and everything above.
    Debug,
    /// Everything.
    Trace,
}

impl LogLevel {
    /// The filter word of this level, as a sequence of characters.
    pub open spec fn filter_word(self) -> Seq<char> {
        match self {
            LogLevel::Error => "error"@,
            LogLevel::Warn => "warn"@,
            LogLevel::Info => "info"@,
            LogLevel::Debug => "debug"@,
            LogLevel::Trace => "trace"@,
        }
    }

    /// The word by which a log filter knows this level.
    pub fn as_filter_str(&self) -> (word: &'static str)
        ensures
            word@ == self.filter_word(),
    {
        match self {
            LogLevel::Error => "error",
            LogLevel::Warn => "warn",
            LogLevel::Info => "info",
            LogLevel::Debug => "debug",
            LogLevel::Trace => "trace",
        }
    }
}

} // verus!
