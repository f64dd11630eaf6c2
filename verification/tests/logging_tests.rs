use tes3mp_runner::pattern::require_compiled;
use tes3mp_runner::logging::{
    level_from_matches, paint, LogColorizer, LogLevel, DEBUG_PATTERN, ERROR_PATTERN, INFO_PATTERN,
    WARN_PATTERN,
};

fn colorizer() -> LogColorizer {
    LogColorizer::new().expect("level patterns compile")
}

#[test]
fn detects_error_and_fatal_lines() {
    let c = colorizer();
    assert_eq!(c.detect_level("[ERROR] something broke"), LogLevel::Error);
    assert_eq!(c.detect_level("fatal: crash"), LogLevel::Error);
    assert_eq!(c.detect_level("an Error happened"), LogLevel::Error);
}

#[test]
fn detects_warning_lines() {
    let c = colorizer();
    assert_eq!(c.detect_level("[WARNING] disk low"), LogLevel::Warn);
    assert_eq!(c.detect_level("warn: slow tick"), LogLevel::Warn);
}

#[test]
fn detects_info_and_debug_lines() {
    let c = colorizer();
    assert_eq!(c.detect_level("[INFO] Server started"), LogLevel::Info);
    assert_eq!(c.detect_level("more information here"), LogLevel::Info);
    assert_eq!(c.detect_level("[DEBUG] packet"), LogLevel::Debug);
}

#[test]
fn unknown_lines_have_no_level() {
    let c = colorizer();
    assert_eq!(c.detect_level("Player joined"), LogLevel::Unknown);
    assert_eq!(c.detect_level(""), LogLevel::Unknown);
}

#[test]
fn error_takes_precedence_over_other_levels() {
    let c = colorizer();
    assert_eq!(c.detect_level("[INFO] error count: 3"), LogLevel::Error);
    assert_eq!(c.detect_level("[DEBUG] warning issued"), LogLevel::Warn);
    assert_eq!(c.detect_level("[DEBUG] info dump"), LogLevel::Info);
}

#[test]
fn colorize_wraps_lines_in_their_colour() {
    let c = colorizer();
    assert_eq!(c.colorize("[ERROR] x"), "\x1b[31m[ERROR] x\x1b[0m");
    assert_eq!(c.colorize("[WARN] x"), "\x1b[33m[WARN] x\x1b[0m");
    assert_eq!(c.colorize("[INFO] x"), "\x1b[32m[INFO] x\x1b[0m");
    assert_eq!(c.colorize("[DEBUG] x"), "\x1b[34m[DEBUG] x\x1b[0m");
}

#[test]
fn colorize_leaves_unknown_lines_unchanged() {
    let c = colorizer();
    assert_eq!(c.colorize("Player joined"), "Player joined");
    assert_eq!(c.colorize(""), "");
}

#[test]
fn cloned_colorizer_behaves_the_same() {
    let c = colorizer();
    let d = c.clone();
    assert_eq!(d.colorize("fatal"), c.colorize("fatal"));
}

#[test]
fn level_from_matches_takes_first_match() {
    assert_eq!(level_from_matches(true, true, true, true), LogLevel::Error);
    assert_eq!(level_from_matches(false, true, true, true), LogLevel::Warn);
    assert_eq!(level_from_matches(false, false, true, true), LogLevel::Info);
    assert_eq!(level_from_matches(false, false, false, true), LogLevel::Debug);
    assert_eq!(level_from_matches(false, false, false, false), LogLevel::Unknown);
}

#[test]
fn paint_uses_level_colours() {
    assert_eq!(paint(LogLevel::Error, "a"), "\x1b[31ma\x1b[0m");
    assert_eq!(paint(LogLevel::Unknown, "a"), "a");
}

#[test]
fn refused_pattern_is_reported_by_its_text() {
    let r = require_compiled(regex::Regex::new("("), ERROR_PATTERN);
    assert_eq!(r.err().map(|e| e.pattern), Some(ERROR_PATTERN.to_string()));
    let r = require_compiled(regex::Regex::new(WARN_PATTERN), WARN_PATTERN);
    assert_eq!(r.map(|re| re.as_str().to_string()).ok(), Some(WARN_PATTERN.to_string()));
}

#[test]
fn level_patterns_all_compile() {
    for p in [ERROR_PATTERN, WARN_PATTERN, INFO_PATTERN, DEBUG_PATTERN] {
        assert!(regex::Regex::new(p).is_ok());
    }
    assert!(LogColorizer::new().is_ok());
}

fn rank(l: LogLevel) -> u8 {
    match l {
        LogLevel::Error => 0,
        LogLevel::Warn => 1,
        LogLevel::Info => 2,
        LogLevel::Debug => 3,
        LogLevel::Unknown => 4,
    }
}

#[test]
fn colouring_keeps_the_detected_level() {
    let c = colorizer();
    for line in ["[ERROR] x", "warn y", "[INFO] z", "debug", "plain", ""] {
        let coloured = c.colorize(line);
        assert_eq!(c.detect_level(&coloured), c.detect_level(line));
        assert!(coloured.contains(line));
    }
}

#[test]
fn appending_text_never_lowers_severity() {
    let c = colorizer();
    let parts = ["[INFO] a", "error b", "plain", "[DEBUG]", "warning"];
    for a in parts {
        for b in parts {
            let joined = format!("{}{}", a, b);
            let r = rank(c.detect_level(&joined));
            assert!(r <= rank(c.detect_level(a)).min(rank(c.detect_level(b))));
        }
    }
}
