use log::{Level, LevelFilter};
use mushin::severity::{is_retained, select_level};

#[test]
fn debug_build_selects_info() {
    assert_eq!(select_level(true), LevelFilter::Info);
}

#[test]
fn release_build_selects_error() {
    assert_eq!(select_level(false), LevelFilter::Error);
}

#[test]
fn debug_build_keeps_info_warn_error_only() {
    let filter = select_level(true);
    assert!(is_retained(filter, Level::Error));
    assert!(is_retained(filter, Level::Warn));
    assert!(is_retained(filter, Level::Info));
    assert!(!is_retained(filter, Level::Debug));
    assert!(!is_retained(filter, Level::Trace));
}

#[test]
fn release_build_keeps_errors_only() {
    let filter = select_level(false);
    assert!(is_retained(filter, Level::Error));
    assert!(!is_retained(filter, Level::Warn));
    assert!(!is_retained(filter, Level::Info));
    assert!(!is_retained(filter, Level::Debug));
    assert!(!is_retained(filter, Level::Trace));
}

#[test]
fn off_keeps_nothing_and_trace_keeps_everything() {
    for level in [Level::Error, Level::Warn, Level::Info, Level::Debug, Level::Trace] {
        assert!(!is_retained(LevelFilter::Off, level));
        assert!(is_retained(LevelFilter::Trace, level));
    }
}

#[test]
fn equal_level_and_filter_is_kept() {
    assert!(is_retained(LevelFilter::Warn, Level::Warn));
    assert!(!is_retained(LevelFilter::Warn, Level::Info));
}
