use clogger::clock::LocalTime;
use clogger::line::{emission_body, format_record};
use clogger::Severity;

fn sample_time() -> LocalTime {
    LocalTime {
        year: 2024,
        month: 3,
        day: 7,
        hour: 9,
        minute: 5,
        second: 3,
        nanosecond: 42_000_000,
    }
}

#[test]
fn coloured_record_line() {
    colored::control::set_override(true);
    let t = sample_time();
    assert_eq!(
        format_record(&t, Severity::Error, "m", "boom"),
        "(\x1b[36m2024-03-07 09:05:03.042\x1b[0m) [\x1b[31mE\x1b[0m] [\x1b[35mm\x1b[0m] boom"
    );
    assert_eq!(
        format_record(&t, Severity::Trace, "", "x"),
        "(\x1b[36m2024-03-07 09:05:03.042\x1b[0m) [\x1b[35mT\x1b[0m] [\x1b[35m\x1b[0m] x"
    );
}

#[test]
fn coloured_glyphs() {
    colored::control::set_override(true);
    let t = sample_time();
    let cases = [
        (Severity::Debug, "\x1b[34mD\x1b[0m"),
        (Severity::Info, "\x1b[32mI\x1b[0m"),
        (Severity::Warn, "\x1b[33mW\x1b[0m"),
        (Severity::Error, "\x1b[31mE\x1b[0m"),
    ];
    for (level, glyph) in cases {
        let line = format_record(&t, level, "m", "msg");
        assert!(line.contains(&format!("[{glyph}]")));
        assert!(line.ends_with("] msg"));
    }
}

#[test]
fn warnings_and_errors_take_colour() {
    colored::control::set_override(true);
    assert_eq!(emission_body(Severity::Warn, "careful"), "\x1b[33mcareful\x1b[0m");
    assert_eq!(emission_body(Severity::Error, "broken"), "\x1b[31mbroken\x1b[0m");
    assert_eq!(emission_body(Severity::Info, "plain"), "plain");
    assert_eq!(emission_body(Severity::Debug, "plain"), "plain");
}
