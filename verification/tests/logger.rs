use valence_log::{valence_log_v2, Level, LogEvent, ValenceLogger};

const ALL: [Level; 5] = [Level::Error, Level::Warn, Level::Info, Level::Debug, Level::Trace];

fn event(severity: Level, target: &str, message: &str) -> LogEvent {
    LogEvent { severity, target: target.to_string(), message: message.to_string() }
}

/// Stands in for the host: keeps every frame it is handed.
struct RecordingSink {
    frames: Vec<Vec<u8>>,
}

fn relay(logger: &ValenceLogger, event: &LogEvent, sink: &mut RecordingSink) {
    if let Some(frame) = logger.log(event) {
        sink.frames.push(frame);
    }
}

#[test]
fn default_threshold_is_info() {
    assert_eq!(ValenceLogger::default(), ValenceLogger { level: Level::Info });
}

#[test]
fn info_threshold_enables_warn_and_not_debug() {
    let logger = ValenceLogger { level: Level::Info };
    assert!(logger.enabled(Level::Error));
    assert!(logger.enabled(Level::Warn));
    assert!(logger.enabled(Level::Info));
    assert!(!logger.enabled(Level::Debug));
    assert!(!logger.enabled(Level::Trace));
}

#[test]
fn enabled_is_the_severity_order() {
    for (t, threshold) in ALL.iter().enumerate() {
        let logger = ValenceLogger { level: *threshold };
        for (l, level) in ALL.iter().enumerate() {
            assert_eq!(logger.enabled(*level), l <= t);
        }
    }
}

#[test]
fn trace_threshold_enables_everything() {
    let logger = ValenceLogger { level: Level::Trace };
    for level in ALL {
        assert!(logger.enabled(level));
    }
}

#[test]
fn error_threshold_enables_errors_only() {
    let logger = ValenceLogger { level: Level::Error };
    assert!(logger.enabled(Level::Error));
    for level in [Level::Warn, Level::Info, Level::Debug, Level::Trace] {
        assert!(!logger.enabled(level));
    }
}

#[test]
fn disabled_event_reaches_no_sink() {
    let logger = ValenceLogger { level: Level::Info };
    let mut sink = RecordingSink { frames: Vec::new() };
    relay(&logger, &event(Level::Debug, "mod", "x"), &mut sink);
    relay(&logger, &event(Level::Trace, "mod", "y"), &mut sink);
    assert_eq!(sink.frames.len(), 0);
    assert!(logger.log(&event(Level::Debug, "mod", "x")).is_none());
}

#[test]
fn enabled_event_reaches_the_sink_once() {
    let logger = ValenceLogger { level: Level::Info };
    let mut sink = RecordingSink { frames: Vec::new() };
    relay(&logger, &event(Level::Warn, "mod", "disk full"), &mut sink);
    assert_eq!(sink.frames.len(), 1);
    assert_eq!(
        sink.frames[0],
        valence_log_v2(Level::Warn, "mod".to_string(), "disk full".to_string())
    );
}

#[test]
fn log_yields_a_frame_exactly_when_enabled() {
    for threshold in ALL {
        let logger = ValenceLogger { level: threshold };
        for level in ALL {
            let outcome = logger.log(&event(level, "t", "m"));
            assert_eq!(outcome.is_some(), logger.enabled(level));
            if let Some(frame) = outcome {
                assert_eq!(frame, valence_log_v2(level, "t".to_string(), "m".to_string()));
            }
        }
    }
}

#[test]
fn log_leaves_the_event_untouched() {
    let logger = ValenceLogger { level: Level::Trace };
    let e = event(Level::Info, "mod", "text");
    let first = logger.log(&e);
    let second = logger.log(&e);
    assert_eq!(first, second);
    assert_eq!(e.target, "mod");
    assert_eq!(e.message, "text");
}

#[test]
fn exact_frame_of_a_warning() {
    let logger = ValenceLogger { level: Level::Info };
    let frame = logger.log(&event(Level::Warn, "mod", "disk full")).unwrap();
    let expected: Vec<u8> = vec![
        0x08, 0x01, 0x12, 0x03, b'm', b'o', b'd', 0x1a, 0x09, b'd', b'i', b's', b'k', b' ', b'f',
        b'u', b'l', b'l',
    ];
    assert_eq!(frame, expected);
}

#[test]
fn flush_changes_nothing() {
    let logger = ValenceLogger { level: Level::Warn };
    let before = logger;
    logger.flush();
    logger.flush();
    assert_eq!(logger, before);
    let mut sink = RecordingSink { frames: Vec::new() };
    relay(&logger, &event(Level::Error, "a", "b"), &mut sink);
    logger.flush();
    assert_eq!(sink.frames.len(), 1);
}
