use vstd::prelude::*;

verus! {

/// The severity of a log record, most severe first.
#[derive(Clone, Copy, PartialEq, Eq, Debug)]
pub enum LogLevel {
    Error,
    Warn,
    Info,
    Debug,
    Trace,
}

/// The coloured tag that opens a log line of each severity on a terminal.
pub open spec fn tag_of(level: LogLevel) -> Seq<char> {
    match level {
        LogLevel::Error => "\x1b[1;31mERROR\x1b[0m"@,
        LogLevel::Warn => "\x1b[1;33mWARN\x1b[0m"@,
        LogLevel::Info => "\x1b[1;34mINFO\x1b[0m"@,
        LogLevel::Debug => "\x1b[1;32mDEBUG\x1b[0m"@,
        LogLevel::Trace => "\x1b[1;37mTRACE\x1b[0m"@,
    }
}

/// The tag written between brackets at the start of a log line.
pub fn level_tag(level: LogLevel) -> (r: &'static str)
    ensures
        r@ == tag_of(level),
{
    match level {
        LogLevel::Error => "\x1b[1;31mERROR\x1b[0m",
        LogLevel::Warn => "\x1b[1;33mWARN\x1b[0m",
        LogLevel::Info => "\x1b[1;34mINFO\x1b[0m",
        LogLevel::Debug => "\x1b[1;32mDEBUG\x1b[0m",
        LogLevel::Trace => "\x1b[1;37mTRACE\x1b[0m",
    }
}

} // verus!
