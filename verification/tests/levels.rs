use valence_log::{Level, LevelFilter};

const ALL: [Level; 5] = [Level::Error, Level::Warn, Level::Info, Level::Debug, Level::Trace];

#[test]
fn wire_codes_are_the_hosts() {
    assert_eq!(Level::Error.to_wire(), 0);
    assert_eq!(Level::Warn.to_wire(), 1);
    assert_eq!(Level::Info.to_wire(), 2);
    assert_eq!(Level::Debug.to_wire(), 3);
    assert_eq!(Level::Trace.to_wire(), 4);
}

#[test]
fn wire_codes_keep_the_severity_order() {
    for (i, a) in ALL.iter().enumerate() {
        for (j, b) in ALL.iter().enumerate() {
            assert_eq!(a.is_at_least(*b), i <= j);
            assert_eq!(a.to_wire() <= b.to_wire(), i <= j);
            assert_eq!(a.to_wire() == b.to_wire(), a == b);
        }
    }
}

#[test]
fn error_is_most_severe_and_trace_least() {
    for level in ALL {
        assert!(Level::Error.is_at_least(level));
        assert!(level.is_at_least(Level::Trace));
    }
    assert!(!Level::Warn.is_at_least(Level::Error));
    assert!(!Level::Trace.is_at_least(Level::Debug));
}

#[test]
fn every_level_is_at_least_itself() {
    for level in ALL {
        assert!(level.is_at_least(level));
    }
}

#[test]
fn level_filter_has_the_name_of_its_level() {
    assert_eq!(Level::Error.to_level_filter(), LevelFilter::Error);
    assert_eq!(Level::Warn.to_level_filter(), LevelFilter::Warn);
    assert_eq!(Level::Info.to_level_filter(), LevelFilter::Info);
    assert_eq!(Level::Debug.to_level_filter(), LevelFilter::Debug);
    assert_eq!(Level::Trace.to_level_filter(), LevelFilter::Trace);
}

#[test]
fn filter_allows_what_its_level_admits() {
    for threshold in ALL {
        for level in ALL {
            assert_eq!(threshold.to_level_filter().allows(level), level.is_at_least(threshold));
        }
    }
}

#[test]
fn off_allows_nothing() {
    for level in ALL {
        assert!(!LevelFilter::Off.allows(level));
    }
}

#[test]
fn info_filter_allows_warn_but_not_debug() {
    assert!(LevelFilter::Info.allows(Level::Warn));
    assert!(LevelFilter::Info.allows(Level::Info));
    assert!(!LevelFilter::Info.allows(Level::Debug));
}
