//! Host-side logging state: the verbosity levels, the sink holder that the
//! rest of the host writes through, and the conversion of a caught panic
//! payload into a loggable message.

use vstd::prelude::*;

verus! {

/// Verbosity selected on the command line.
#[derive(Clone, Copy, Debug, PartialEq, Eq, Structural)]
pub enum LogLevel {
    Off,
    Trace,
    Debug,
    Info,
    Warn,
    Error,
}

/// The most verbose level a sink lets through. The binary maps this onto
/// the filter type of whatever logging facade it wires up.
#[derive(Clone, Copy, Debug, PartialEq, Eq, Structural)]
pub enum LevelFilter {
    Off,
    Trace,
    Debug,
    Info,
    Warn,
    Error,
}

pub open spec fn spec_level_filter(level: LogLevel) -> LevelFilter {
    match level {
        LogLevel::Off => LevelFilter::Off,
        LogLevel::Trace => LevelFilter::Trace,
        LogLevel::Debug => LevelFilter::Debug,
        LogLevel::Info => LevelFilter::Info,
        LogLevel::Warn => LevelFilter::Warn,
        LogLevel::Error => LevelFilter::Error,
    }
}

impl LogLevel {
    /// The filter that admits exactly the records of this level and above.
    pub fn into_level_filter(self) -> (r: LevelFilter)
        ensures
            r == spec_level_filter(self),
    {
        match self {
            LogLevel::Off => LevelFilter::Off,
            LogLevel::Trace => LevelFilter::Trace,
            LogLevel::Debug => LevelFilter::Debug,
            LogLevel::Info => LevelFilter::Info,
            LogLevel::Warn => LevelFilter::Warn,
            LogLevel::Error => LevelFilter::Error,
        }
    }
}

/// A sink that messages can be handed to, implemented by each backend.
pub trait SimpleLog {
    fn log(&mut self, message: &str);
}

/// A sink that discards everything.
#[derive(Debug)]
pub struct NoopLog;

impl SimpleLog for NoopLog {
    fn log(&mut self, _message: &str) {
    }
}

/// State of an attached console sink: how the console was obtained decides
/// how it is released and whether a window of our own must be managed.
#[derive(Clone, Copy, Debug, PartialEq, Eq, Structural)]
pub enum ConsoleKind {
    /// Attached to the console of the parent process.
    Attach,
    /// A console allocated for this process.
    Alloc,
    /// A piped helper process showing our output.
    Piped,
}

/// A console sink. The binary performs the attach/alloc/spawn calls and
/// records here which of them produced the console.
#[derive(Clone, Copy, Debug, PartialEq, Eq, Structural)]
pub struct Console {
    pub kind: ConsoleKind,
}

impl Console {
    /// Whether this console lives in our own process (attached or
    /// allocated), as opposed to a piped helper.
    pub fn is_attached(&self) -> (r: bool)
        ensures
            r == (self.kind == ConsoleKind::Attach || self.kind == ConsoleKind::Alloc),
    {
        match self.kind {
            ConsoleKind::Attach | ConsoleKind::Alloc => true,
            ConsoleKind::Piped => false,
        }
    }

    /// Whether this console is a piped helper process.
    pub fn is_piped(&self) -> (r: bool)
        ensures
            r == (self.kind == ConsoleKind::Piped),
    {
        match self.kind {
            ConsoleKind::Piped => true,
            _ => false,
        }
    }

    /// Whether the console can still accept output. An attached or
    /// allocated console always can; a piped one only while its helper
    /// process is alive, which the caller reports.
    pub fn is_active(&self, piped_helper_alive: bool) -> (r: bool)
        ensures
            r == if self.kind == ConsoleKind::Piped {
                piped_helper_alive
            } else {
                true
            },
    {
        match self.kind {
            ConsoleKind::Attach | ConsoleKind::Alloc => true,
            ConsoleKind::Piped => piped_helper_alive,
        }
    }
}

/// A log file sink: the path it writes to, and whether the file has been
/// opened yet (it is opened lazily on the first message).
#[derive(Debug)]
pub struct FileLog {
    pub path: String,
    pub opened: bool,
}

impl FileLog {
    /// A file sink for `path`; nothing is opened until the first write.
    pub fn new(path: String) -> (r: FileLog)
        ensures
            r.path@ == path@,
            !r.opened,
    {
        FileLog { path, opened: false }
    }
}

/// The process-wide logger: an optional console sink and an optional file
/// sink. Records are forwarded to whichever of the two is present.
#[derive(Debug)]
pub struct GlobalLogger {
    pub console: Option<Console>,
    pub file: Option<FileLog>,
}

impl GlobalLogger {
    /// A logger with no sinks: every record is dropped.
    pub fn new() -> (r: GlobalLogger)
        ensures
            r.console is None,
            r.file is None,
    {
        GlobalLogger { console: None, file: None }
    }
}

/// Drops both sinks, so that nothing further is written; called once on
/// shutdown before the process exits.
pub fn unset(logger: &mut GlobalLogger)
    ensures
        final(logger).console is None,
        final(logger).file is None,
{
    logger.console = None;
    logger.file = None;
}

/// The message carried by a caught panic, if its payload was a string;
/// panics with other payloads are reported with a fixed placeholder.
pub fn panic_info_to_string(info: Option<String>) -> (r: String)
    ensures
        match info {
            Some(s) => r@ == s@,
            None => r@ == "Unknown panic"@,
        },
{
    match info {
        Some(s) => s,
        None => "Unknown panic".to_owned(),
    }
}

} // verus!
