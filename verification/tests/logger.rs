//! Logging state: levels, sinks, and panic payload rendering.

use burnt_sushi::args::Args;
use burnt_sushi::logger::{
    Console, ConsoleKind, FileLog, GlobalLogger, LevelFilter, LogLevel, NoopLog, SimpleLog,
    panic_info_to_string, unset,
};

#[test]
fn level_filters_mirror_levels() {
    assert_eq!(LogLevel::Off.into_level_filter(), LevelFilter::Off);
    assert_eq!(LogLevel::Trace.into_level_filter(), LevelFilter::Trace);
    assert_eq!(LogLevel::Debug.into_level_filter(), LevelFilter::Debug);
    assert_eq!(LogLevel::Info.into_level_filter(), LevelFilter::Info);
    assert_eq!(LogLevel::Warn.into_level_filter(), LevelFilter::Warn);
    assert_eq!(LogLevel::Error.into_level_filter(), LevelFilter::Error);
}

#[test]
fn panic_payloads_are_rendered() {
    assert_eq!(panic_info_to_string(Some("boom".to_string())), "boom");
    assert_eq!(panic_info_to_string(None), "Unknown panic");
}

#[test]
fn unset_drops_both_sinks() {
    let mut logger = GlobalLogger {
        console: Some(Console { kind: ConsoleKind::Alloc }),
        file: Some(FileLog::new("burnt.log".to_string())),
    };
    unset(&mut logger);
    assert!(logger.console.is_none());
    assert!(logger.file.is_none());
    // clearing an already-clear logger is harmless
    unset(&mut logger);
    assert!(logger.console.is_none());
}

#[test]
fn fresh_logger_has_no_sinks() {
    let logger = GlobalLogger::new();
    assert!(logger.console.is_none());
    assert!(logger.file.is_none());
}

#[test]
fn file_sink_opens_lazily() {
    let log = FileLog::new("out.log".to_string());
    assert_eq!(log.path, "out.log");
    assert!(!log.opened);
}

#[test]
fn console_kinds_answer_their_predicates() {
    let attach = Console { kind: ConsoleKind::Attach };
    let alloc = Console { kind: ConsoleKind::Alloc };
    let piped = Console { kind: ConsoleKind::Piped };
    assert!(attach.is_attached() && alloc.is_attached() && !piped.is_attached());
    assert!(!attach.is_piped() && piped.is_piped());
    // only a piped console depends on its helper process being alive
    assert!(attach.is_active(false));
    assert!(piped.is_active(true));
    assert!(!piped.is_active(false));
}

#[test]
fn noop_sink_accepts_messages() {
    let mut log = NoopLog;
    log.log("dropped");
}

#[test]
fn default_args_have_debug_level_and_no_paths() {
    let args = Args::default();
    assert!(!args.console);
    assert_eq!(args.log_level, LogLevel::Debug);
    assert!(args.blocker.is_none());
    assert!(args.filters.is_none());
    assert!(!args.shutdown_with_spotify);
    assert!(!args.ignore_singleton);
    assert!(!args.install);
    assert!(args.update_old_bin.is_none());
    assert!(!args.update_elevate_restart);
    assert!(!args.singleton_wait_for_shutdown);
    assert!(!args.autostart);
    assert!(!args.force_restart);
}
