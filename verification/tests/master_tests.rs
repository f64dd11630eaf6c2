use tes3mp_runner::master::{
    check_nat_issue, format_server_address, select_server_entry, MasterPatterns, MasterPollAction, MasterPollEvent,
    HOSTNAME_FIELD_PATTERN, MASTER_TIMEOUT_PATTERN, SERVER_ENTRY_PATTERN,
};

const LISTING: &str = r#"{"list servers": {"5.6.7.8:1234": {"hostname": "Other", "players": 2}, "1.2.3.4:25565": {"hostname": "My Server", "players": 0}}}"#;

fn patterns() -> MasterPatterns {
    MasterPatterns::new().expect("master patterns compile")
}

#[test]
fn finds_our_server_in_listing() {
    let p = patterns();
    assert_eq!(
        p.find_our_server(LISTING, "1.2.3.4", 25565),
        Some(("1.2.3.4:25565".to_string(), "My Server".to_string()))
    );
    assert_eq!(
        p.find_our_server(LISTING, "5.6.7.8", 1234),
        Some(("5.6.7.8:1234".to_string(), "Other".to_string()))
    );
}

#[test]
fn other_port_is_not_our_server() {
    let p = patterns();
    assert_eq!(p.find_our_server(LISTING, "1.2.3.4", 25566), None);
    assert_eq!(p.find_our_server("{}", "1.2.3.4", 25565), None);
}

#[test]
fn entry_without_hostname_gives_nothing() {
    let p = patterns();
    let body = r#"{"1.2.3.4:25565": {"players": 0}}"#;
    assert_eq!(p.find_our_server(body, "1.2.3.4", 25565), None);
}

#[test]
fn detects_master_trouble_in_output() {
    let p = patterns();
    assert!(p.check_master_timeout("Cannot connect to master server"));
    assert!(p.check_master_timeout("Master server timed out"));
    assert!(p.check_master_timeout("NAT issue detected"));
    assert!(p.check_master_timeout("stale entry for port 25565"));
    assert!(!p.check_master_timeout("Player joined"));
}

#[test]
fn nat_notice_for_wildcard_and_loopback() {
    assert_eq!(
        check_nat_issue("0.0.0.0", "1.2.3.4", 25565),
        Some("Server bound to 0.0.0.0 - master server will see 1.2.3.4:25565".to_string())
    );
    assert_eq!(
        check_nat_issue("127.0.0.1", "1.2.3.4", 7),
        Some("Server bound to 127.0.0.1 - master server will see 1.2.3.4:7".to_string())
    );
    assert_eq!(check_nat_issue("10.0.0.2", "1.2.3.4", 25565), None);
}

#[test]
fn server_address_format() {
    assert_eq!(format_server_address("1.2.3.4", 25565), "1.2.3.4:25565");
    assert_eq!(format_server_address("", 0), ":0");
}

#[test]
fn poll_retries_on_failures_and_bad_status() {
    let p = patterns();
    assert!(matches!(p.master_poll_step(MasterPollEvent::RequestFailed, "1.2.3.4", 1), MasterPollAction::Retry));
    assert!(matches!(p.master_poll_step(MasterPollEvent::Status(503), "1.2.3.4", 1), MasterPollAction::Retry));
    assert!(matches!(p.master_poll_step(MasterPollEvent::Status(200), "1.2.3.4", 1), MasterPollAction::ReadBody));
    assert!(matches!(p.master_poll_step(MasterPollEvent::BodyUnreadable, "1.2.3.4", 1), MasterPollAction::Retry));
}

#[test]
fn poll_ends_on_received_listing() {
    let p = patterns();
    match p.master_poll_step(MasterPollEvent::Body(LISTING.to_string()), "1.2.3.4", 25565) {
        MasterPollAction::RegistrationOk { address, hostname } => {
            assert_eq!(address, "1.2.3.4:25565");
            assert_eq!(hostname, "My Server");
        }
        _ => panic!("expected a correct registration"),
    }
    assert!(matches!(
        p.master_poll_step(MasterPollEvent::Body(LISTING.to_string()), "9.9.9.9", 25565),
        MasterPollAction::NoRegistration
    ));
}

#[test]
fn master_patterns_compile() {
    for p in [SERVER_ENTRY_PATTERN, HOSTNAME_FIELD_PATTERN, MASTER_TIMEOUT_PATTERN] {
        assert!(regex::Regex::new(p).is_ok());
    }
    assert!(MasterPatterns::new().is_ok());
}

#[test]
fn select_server_entry_cases() {
    let e = |a: Option<&str>, b: Option<&str>| {
        vec![Some("whole".to_string()), a.map(|s| s.to_string()), b.map(|s| s.to_string())]
    };
    let entries = vec![e(Some("5.6.7.8:1"), Some("x")), e(Some("1.2.3.4:25565"), Some("body"))];
    assert_eq!(
        select_server_entry(&entries, "1.2.3.4:25565"),
        Some(("1.2.3.4:25565".to_string(), "body".to_string()))
    );
    assert_eq!(select_server_entry(&entries, "9.9.9.9:1"), None);
    let broken = vec![e(None, Some("x")), e(Some("1.2.3.4:25565"), Some("body"))];
    assert_eq!(select_server_entry(&broken, "1.2.3.4:25565"), None);
    let short = vec![vec![Some("whole".to_string()), Some("1.2.3.4:25565".to_string())]];
    assert_eq!(select_server_entry(&short, "1.2.3.4:25565"), None);
}
