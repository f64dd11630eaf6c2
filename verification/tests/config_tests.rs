use tes3mp_runner::config::{
    config_from_captures, config_path, config_port_conflict, parse_config_text, ConfigPatterns,
    HOSTNAME_PATTERN, PORT_PATTERN,
};

#[test]
fn parses_port_and_trimmed_hostname() {
    let text = "[General]\nport = 25565\nhostname = My Server   \nmaximumPlayers = 64\n";
    assert_eq!(parse_config_text(text), Some((25565, "My Server".to_string())));
}

#[test]
fn missing_hostname_reads_unknown() {
    assert_eq!(parse_config_text("port=1234\n"), Some((1234, "Unknown".to_string())));
}

#[test]
fn missing_or_bad_port_gives_nothing() {
    assert_eq!(parse_config_text("hostname = x\n"), None);
    assert_eq!(parse_config_text("port = 70000\nhostname = x\n"), None);
    assert_eq!(parse_config_text("  port = 1\n"), None);
    assert_eq!(parse_config_text(""), None);
}

#[test]
fn first_port_line_wins_and_crlf_is_trimmed() {
    let text = "port = 1\r\nport = 2\r\nhostname = Name\r\n";
    assert_eq!(parse_config_text(text), Some((1, "Name".to_string())));
}

#[test]
fn parse_with_compiled_patterns() {
    let p = ConfigPatterns::new().expect("config patterns compile");
    assert_eq!(p.parse("port = 7\nhostname = a b\n"), Some((7, "a b".to_string())));
}

#[test]
fn config_from_captures_cases() {
    assert_eq!(config_from_captures(None, Some("x".to_string())), None);
    assert_eq!(config_from_captures(Some("65536".to_string()), None), None);
    assert_eq!(config_from_captures(Some("80".to_string()), None), Some((80, "Unknown".to_string())));
    assert_eq!(
        config_from_captures(Some("80".to_string()), Some("  Host \t".to_string())),
        Some((80, "Host".to_string()))
    );
}

#[test]
fn config_patterns_compile() {
    assert!(regex::Regex::new(PORT_PATTERN).is_ok());
    assert!(regex::Regex::new(HOSTNAME_PATTERN).is_ok());
    assert!(ConfigPatterns::new().is_ok());
}

#[test]
fn config_file_location() {
    assert_eq!(config_path("/mnt/server"), "/mnt/server/tes3mp-server-default.cfg");
}

#[test]
fn port_conflict_detection() {
    assert!(config_port_conflict(25565, 25566));
    assert!(!config_port_conflict(25565, 25565));
}
