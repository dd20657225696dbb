use clogger::clock::LocalTime;
use clogger::gate::InitGate;
use clogger::line::{compose_line, emission_body, format_record, target_tag};
use clogger::{admits, decimal, padded, Severity, FLOOR};

fn sample_time() -> LocalTime {
    LocalTime {
        year: 2024,
        month: 3,
        day: 7,
        hour: 9,
        minute: 5,
        second: 3,
        nanosecond: 42_000_000,
    }
}

#[test]
fn decimal_writes_digits() {
    assert_eq!(decimal(0), "0");
    assert_eq!(decimal(7), "7");
    assert_eq!(decimal(1_000_000), "1000000");
    assert_eq!(decimal(u64::MAX), "18446744073709551615");
}

#[test]
fn padded_fills_with_zeros() {
    assert_eq!(padded(5, 2), "05");
    assert_eq!(padded(42, 3), "042");
    assert_eq!(padded(12345, 4), "12345");
    assert_eq!(padded(0, 0), "0");
}

#[test]
fn stamp_layout() {
    assert_eq!(sample_time().stamp(), "2024-03-07 09:05:03.042");
}

#[test]
fn stamp_leap_second_shows_sixty() {
    let mut t = sample_time();
    t.second = 59;
    t.nanosecond = 1_500_000_000;
    assert_eq!(t.stamp(), "2024-03-07 09:05:60.500");
}

#[test]
fn stamp_years_outside_four_digits() {
    let mut t = sample_time();
    t.year = 33;
    assert_eq!(t.stamp(), "0033-03-07 09:05:03.042");
    t.year = 10000;
    assert_eq!(t.stamp(), "+10000-03-07 09:05:03.042");
    t.year = -5;
    assert_eq!(t.stamp(), "-0005-03-07 09:05:03.042");
}

#[test]
fn target_tag_appends_call_site() {
    assert_eq!(
        target_tag("clogger::tests::test_logging", "src/lib.rs", 210, 9),
        "clogger::tests::test_logging (src/lib.rs:210^9)"
    );
    assert_eq!(target_tag("", "f.rs", 0, 0), " (f.rs:0^0)");
}

#[test]
fn target_tags_differ_by_module() {
    let a = target_tag("app::net", "src/a.rs", 3, 1);
    let b = target_tag("app::disk", "src/a.rs", 3, 1);
    assert!(!a.is_empty());
    assert_ne!(a, b);
}

#[test]
fn compose_line_layout() {
    assert_eq!(
        compose_line("2024-03-07 09:05:03.042", "I", "m (f.rs:1^2)", "hello"),
        "(2024-03-07 09:05:03.042) [I] [m (f.rs:1^2)] hello"
    );
    assert_eq!(compose_line("", "", "", ""), "() [] [] ");
}

#[test]
fn glyphs_per_severity() {
    assert_eq!(Severity::Trace.glyph(), "T");
    assert_eq!(Severity::Debug.glyph(), "D");
    assert_eq!(Severity::Info.glyph(), "I");
    assert_eq!(Severity::Warn.glyph(), "W");
    assert_eq!(Severity::Error.glyph(), "E");
}

#[test]
fn severity_order() {
    assert!(Severity::Trace.rank() < Severity::Debug.rank());
    assert!(Severity::Debug.rank() < Severity::Info.rank());
    assert!(Severity::Info.rank() < Severity::Warn.rank());
    assert!(Severity::Warn.rank() < Severity::Error.rank());
    assert!(Severity::Warn.at_least(Severity::Info));
    assert!(!Severity::Info.at_least(Severity::Warn));
}

#[test]
fn filter_holds_back_trace() {
    assert_eq!(FLOOR, Severity::Debug);
    assert!(!admits(Severity::Trace));
    assert!(admits(Severity::Debug));
    assert!(admits(Severity::Info));
    assert!(admits(Severity::Warn));
    assert!(admits(Severity::Error));
}

#[test]
fn first_path_wins() {
    let mut g = InitGate::new();
    assert!(!g.is_installed());
    assert_eq!(g.installed_path(), None);
    assert!(g.claim("/tmp/first.log"));
    assert!(!g.claim("/tmp/second.log"));
    assert!(!g.claim("/tmp/first.log"));
    assert!(g.is_installed());
    assert_eq!(g.installed_path(), Some("/tmp/first.log"));
}

#[test]
fn plain_record_line() {
    colored::control::set_override(false);
    let t = sample_time();
    assert_eq!(
        format_record(&t, Severity::Info, "m (f.rs:1^2)", "这是一条常规日志！"),
        "(2024-03-07 09:05:03.042) [I] [m (f.rs:1^2)] 这是一条常规日志！"
    );
    assert_eq!(emission_body(Severity::Warn, "careful"), "careful");
    assert_eq!(emission_body(Severity::Info, "plain"), "plain");
}

#[test]
fn plain_lines_in_order() {
    colored::control::set_override(false);
    let t = sample_time();
    let lines: Vec<String> = (1..=5)
        .map(|i| format_record(&t, Severity::Info, "perf", &format!("run {i}")))
        .collect();
    for (i, l) in lines.iter().enumerate() {
        assert!(l.ends_with(&format!("run {}", i + 1)));
        assert!(!l.contains('\n'));
    }
}

#[test]
fn stamp_takes_out_of_range_fields() {
    let t = LocalTime {
        year: 2024,
        month: 13,
        day: 0,
        hour: 100,
        minute: 7,
        second: u32::MAX,
        nanosecond: u32::MAX,
    };
    assert_eq!(t.stamp(), "2024-13-00 100:07:4294967299.294");
}
