use vstd::prelude::*;

verus! {

/// The verbosity levels of the `log` crate, from the most severe to the most verbose.
#[verifier::external_type_specification]
pub struct ExLevel(log::Level);

/// How much a logger lets through, from nothing to everything.
#[derive(Debug, Copy, Clone, PartialEq, Eq, Structural)]
pub enum LogLevel {
    Silent,
    Error,
    Warning,
    Info,
    Debug,
    Trace,
}

/// The position of a level of the `log` crate: 1 for errors, 5 for traces.
pub open spec fn severity(level: log::Level) -> nat {
    match level {
        log::Level::Error => 1,
        log::Level::Warn => 2,
        log::Level::Info => 3,
        log::Level::Debug => 4,
        log::Level::Trace => 5,
    }
}

/// The name under which a level appears in a log line.
pub open spec fn level_name(level: log::Level) -> Seq<char> {
    match level {
        log::Level::Error => "ERROR"@,
        log::Level::Warn => "WARN"@,
        log::Level::Info => "INFO"@,
        log::Level::Debug => "DEBUG"@,
        log::Level::Trace => "TRACE"@,
    }
}

/// `log::Level::as_str` returns the level's name in capitals, the string that the
/// level's `Display` writes.
pub assume_specification[ log::Level::as_str ](level: &log::Level) -> (r: &'static str)
    ensures
        r@ == level_name(*level),
;

impl LogLevel {
    /// The position of the setting: 0 lets nothing through, 5 everything.
    pub open spec fn rank(self) -> nat {
        match self {
            LogLevel::Silent => 0,
            LogLevel::Error => 1,
            LogLevel::Warning => 2,
            LogLevel::Info => 3,
            LogLevel::Debug => 4,
            LogLevel::Trace => 5,
        }
    }

    /// The most verbose level of the `log` crate that the setting lets through; `Silent`
    /// lets none through.
    pub fn try_into(self) -> (r: Result<log::Level, ()>)
        ensures
            self is Silent <==> r is Err,
            r matches Ok(level) ==> severity(level) == self.rank(),
    {
        match self {
            LogLevel::Silent => Err(()),
            LogLevel::Error => Ok(log::Level::Error),
            LogLevel::Warning => Ok(log::Level::Warn),
            LogLevel::Info => Ok(log::Level::Info),
            LogLevel::Debug => Ok(log::Level::Debug),
            LogLevel::Trace => Ok(log::Level::Trace),
        }
    }
}

/// The position of a level, computed.
fn severity_of(level: log::Level) -> (r: u8)
    ensures
        r == severity(level),
{
    match level {
        log::Level::Error => 1,
        log::Level::Warn => 2,
        log::Level::Info => 3,
        log::Level::Debug => 4,
        log::Level::Trace => 5,
    }
}

/// A logger's configuration: made once when the process starts and handed to whatever
/// writes log lines.
pub struct Logger {
    level: LogLevel,
}

/// A log line: the time, the level between brackets, the message.
pub open spec fn line_of(timestamp: Seq<char>, level: log::Level, message: Seq<char>) -> Seq<char> {
    timestamp + " ["@ + level_name(level) + "] "@ + message
}

impl Logger {
    /// The setting of the logger.
    pub closed spec fn spec_level(&self) -> LogLevel {
        self.level
    }

    /// Whether the logger lets records of a level through.
    pub open spec fn lets_through(&self, level: log::Level) -> bool {
        severity(level) <= self.spec_level().rank()
    }

    /// The setting of the logger.
    pub fn level(&self) -> (r: LogLevel)
        ensures
            r == self.spec_level(),
    {
        self.level
    }

    /// Whether records of a level are written: those at least as severe as the setting
    /// allows, and none when the setting is `Silent`.
    pub fn enabled(&self, level: log::Level) -> (r: bool)
        ensures
            r == self.lets_through(level),
    {
        match self.level.try_into() {
            Ok(most) => severity_of(level) <= severity_of(most),
            Err(_) => false,
        }
    }

    /// The line to write for a record, or `None` when the record is not let through.
    pub fn line(&self, timestamp: &str, level: log::Level, message: &str) -> (r: Option<String>)
        ensures
            match r {
                Some(line) => self.lets_through(level) && line@ == line_of(
                    timestamp@,
                    level,
                    message@,
                ),
                None => !self.lets_through(level),
            },
    {
        if self.enabled(level) {
            let mut line = String::from_str(timestamp);
            line.append(" [");
            line.append(level.as_str());
            line.append("] ");
            line.append(message);
            Some(line)
        } else {
            None
        }
    }
}

/// Changes what a logger lets through.
pub fn set_log_level(logger: &mut Logger, level: LogLevel)
    ensures
        final(logger).spec_level() == level,
{
    logger.level = level;
}

/// A more verbose setting lets through whatever a less verbose one does, and `Silent`
/// lets nothing through.
pub proof fn verbosity_is_ordered(quiet: Logger, loud: Logger, level: log::Level)
    requires
        quiet.spec_level().rank() <= loud.spec_level().rank(),
    ensures
        quiet.lets_through(level) ==> loud.lets_through(level),
        quiet.spec_level() is Silent ==> !quiet.lets_through(level),
        loud.spec_level() is Trace ==> loud.lets_through(level),
{
}

/// The logger as a process starts with it: informational records and above.
pub fn init_logger() -> (r: Logger)
    ensures
        r.spec_level() == LogLevel::Info,
{
    Logger { level: LogLevel::Info }
}

} // verus!
