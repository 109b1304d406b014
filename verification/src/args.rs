//! The command-line options, as plain values. The binary parses the real
//! command line and fills this in; defaults live here so that both sides
//! agree on them.

use vstd::prelude::*;

use crate::logger::LogLevel;

verus! {

/// Everything the host can be told on its command line.
#[derive(Debug, Clone)]
pub struct Args {
    /// Show a console window with debug output.
    pub console: bool,
    /// Level of debug output.
    pub log_level: LogLevel,
    /// Start even if another instance is already running.
    pub ignore_singleton: bool,
    /// Exit once the target application closes.
    pub shutdown_with_spotify: bool,
    /// Path to the interception module payload, if given.
    pub blocker: Option<String>,
    /// Path to the filter configuration, if given.
    pub filters: Option<String>,
    /// Install the payload next to the executable and exit.
    pub install: bool,
    /// A replaced binary to delete after an update.
    pub update_old_bin: Option<String>,
    /// This run is the elevated restart of an update.
    pub update_elevate_restart: bool,
    /// Wait for a running instance to shut down instead of giving up.
    pub singleton_wait_for_shutdown: bool,
    /// This run was started by the autostart entry.
    pub autostart: bool,
    /// Terminate other running instances first.
    pub force_restart: bool,
}

impl Default for Args {
    /// No flags set, no paths given, and the default verbosity.
    fn default() -> (r: Args)
        ensures
            !r.console,
            r.log_level == LogLevel::Debug,
            !r.ignore_singleton,
            !r.shutdown_with_spotify,
            r.blocker is None,
            r.filters is None,
            !r.install,
            r.update_old_bin is None,
            !r.update_elevate_restart,
            !r.singleton_wait_for_shutdown,
            !r.autostart,
            !r.force_restart,
    {
        Args {
            console: false,
            log_level: LogLevel::Debug,
            ignore_singleton: false,
            shutdown_with_spotify: false,
            blocker: None,
            filters: None,
            install: false,
            update_old_bin: None,
            update_elevate_restart: false,
            singleton_wait_for_shutdown: false,
            autostart: false,
            force_restart: false,
        }
    }
}

} // verus!
