//! The severity order, the admission predicate, the fixed-width prefixes,
//! and the decimal and timestamp rendering.

use logger::Severity;
use logger::format::current_log_file_path;
use logger::format::decimal_string;
use logger::format::format_line;
use logger::format::log_file_path;
use logger::format::prefix;
use logger::format::signed_decimal_string;
use logger::format::timestamp_string;
use logger::severity::admits;

#[test]
fn test_admits_is_the_at_least_as_severe_order() {
    let all = [
        Severity::Error,
        Severity::Warn,
        Severity::Info,
        Severity::Debug,
        Severity::Trace,
    ];
    for (c, ceiling) in all.iter().enumerate() {
        for (s, candidate) in all.iter().enumerate() {
            assert_eq!(admits(*ceiling, *candidate), s <= c);
        }
    }
}

#[test]
fn test_prefixes_are_the_fixed_width_tokens() {
    assert_eq!(prefix(Severity::Error), "[ERROR]");
    assert_eq!(prefix(Severity::Warn), " [WARN]");
    assert_eq!(prefix(Severity::Info), " [INFO]");
    assert_eq!(prefix(Severity::Debug), "[DEBUG]");
    assert_eq!(prefix(Severity::Trace), "[TRACE]");
    for level in [
        Severity::Error,
        Severity::Warn,
        Severity::Info,
        Severity::Debug,
        Severity::Trace,
    ] {
        assert_eq!(prefix(level).chars().count(), 7);
    }
}

#[test]
fn test_format_line_layout() {
    assert_eq!(format_line(Severity::Error, "boom"), "[ERROR]: boom\n");
    assert_eq!(format_line(Severity::Warn, ""), " [WARN]: \n");
    assert_eq!(format_line(Severity::Trace, "x y z"), "[TRACE]: x y z\n");
}

#[test]
fn test_decimal_rendering() {
    assert_eq!(decimal_string(0), "0");
    assert_eq!(decimal_string(7), "7");
    assert_eq!(decimal_string(10), "10");
    assert_eq!(decimal_string(2026), "2026");
    assert_eq!(decimal_string(u32::MAX), "4294967295");
}

#[test]
fn test_signed_decimal_rendering() {
    assert_eq!(signed_decimal_string(0), "0");
    assert_eq!(signed_decimal_string(2026), "2026");
    assert_eq!(signed_decimal_string(-5), "-5");
    assert_eq!(signed_decimal_string(i32::MIN), "-2147483648");
}

#[test]
fn test_timestamp_rendering() {
    assert_eq!(timestamp_string(2026, 10, 11, 3, 4, 5), "2026-10-11_3-4-5");
    assert_eq!(
        timestamp_string(1999, 12, 31, 23, 59, 58),
        "1999-12-31_23-59-58"
    );
}

#[test]
fn test_timestamp_rendering_without_padding() {
    assert_eq!(timestamp_string(2026, 1, 2, 0, 0, 0), "2026-1-2_0-0-0");
    assert_eq!(timestamp_string(-44, 3, 15, 12, 0, 1), "-44-3-15_12-0-1");
}

#[test]
fn test_log_file_path_layout() {
    assert_eq!(
        log_file_path("2026-10-11_3-4-5"),
        "./core/application/resources/logging/2026-10-11_3-4-5_log.txt"
    );
}

#[test]
fn test_current_log_file_path_shape() {
    let path = current_log_file_path();
    assert!(path.starts_with("./core/application/resources/logging/"));
    assert!(path.ends_with("_log.txt"));
}
