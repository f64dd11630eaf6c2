use tes3mp_runner::public_ip::{endpoint, IpLookup, IpLookupAction, IpLookupEvent, IpLookupPhase};
use tes3mp_runner::shutdown::{valid_shutdown_timeout, Shutdown, ShutdownAction, ShutdownEvent, ShutdownPhase};

fn url(a: IpLookupAction) -> &'static str {
    match a {
        IpLookupAction::Query { url } => url,
        _ => panic!("expected a query"),
    }
}

fn finished(a: IpLookupAction) -> Option<String> {
    match a {
        IpLookupAction::Finish { ip } => ip,
        _ => panic!("expected the end of the lookup"),
    }
}

#[test]
fn curl_answer_ends_lookup() {
    let mut l = IpLookup::new();
    assert!(matches!(l.step(IpLookupEvent::Start), IpLookupAction::RunCurl));
    let a = l.step(IpLookupEvent::CurlAnswer { text: " 1.2.3.4\n".to_string(), valid: true });
    assert_eq!(finished(a), Some("1.2.3.4".to_string()));
    assert_eq!(l.phase(), IpLookupPhase::Done);
}

#[test]
fn endpoints_are_tried_in_order() {
    let mut l = IpLookup::new();
    l.step(IpLookupEvent::Start);
    assert!(matches!(l.step(IpLookupEvent::CurlFailed), IpLookupAction::BuildClient));
    assert_eq!(url(l.step(IpLookupEvent::ClientReady)), "https://api.ipify.org");
    assert_eq!(url(l.step(IpLookupEvent::RequestFailed)), "https://ifconfig.me/ip");
    assert_eq!(url(l.step(IpLookupEvent::BodyUnreadable)), "https://icanhazip.com");
    let a = l.step(IpLookupEvent::Answer { text: "\n".to_string(), valid: true });
    assert_eq!(url(a), "https://checkip.amazonaws.com");
    let a = l.step(IpLookupEvent::Answer { text: "5.6.7.8\n".to_string(), valid: true });
    assert_eq!(finished(a), Some("5.6.7.8".to_string()));
}

#[test]
fn lookup_gives_up_after_last_endpoint() {
    let mut l = IpLookup::new();
    l.step(IpLookupEvent::Start);
    l.step(IpLookupEvent::CurlAnswer { text: "garbage".to_string(), valid: false });
    l.step(IpLookupEvent::ClientReady);
    for _ in 0..3 {
        l.step(IpLookupEvent::Answer { text: "nope".to_string(), valid: false });
    }
    let a = l.step(IpLookupEvent::RequestFailed);
    assert_eq!(finished(a), None);
    assert!(matches!(l.step(IpLookupEvent::RequestFailed), IpLookupAction::Ignore));
}

#[test]
fn lookup_ends_when_client_fails() {
    let mut l = IpLookup::new();
    l.step(IpLookupEvent::Start);
    l.step(IpLookupEvent::CurlFailed);
    assert_eq!(finished(l.step(IpLookupEvent::ClientFailed)), None);
}

#[test]
fn lookup_ignores_out_of_place_events() {
    let mut l = IpLookup::new();
    assert!(matches!(l.step(IpLookupEvent::ClientReady), IpLookupAction::Ignore));
    assert_eq!(l.phase(), IpLookupPhase::Idle);
    assert_eq!(endpoint(3), "https://checkip.amazonaws.com");
}

#[test]
fn shutdown_clean_exit() {
    let mut s = Shutdown::new(30);
    assert_eq!(s.step(ShutdownEvent::Begin { has_child: true, pid: Some(42) }), ShutdownAction::SendTerm { pid: 42 });
    assert_eq!(s.step(ShutdownEvent::SignalSent), ShutdownAction::WaitFor { secs: 30 });
    assert_eq!(s.step(ShutdownEvent::Exited), ShutdownAction::Release);
    assert_eq!(s.phase(), ShutdownPhase::Finished);
}

#[test]
fn shutdown_forces_kill_after_timeout() {
    let mut s = Shutdown::new(5);
    s.step(ShutdownEvent::Begin { has_child: true, pid: Some(7) });
    s.step(ShutdownEvent::SignalSent);
    assert_eq!(s.step(ShutdownEvent::TimedOut), ShutdownAction::ForceKill);
    assert_eq!(s.step(ShutdownEvent::KillDone), ShutdownAction::Release);
}

#[test]
fn shutdown_without_child_or_signal() {
    let mut s = Shutdown::new(5);
    assert_eq!(s.step(ShutdownEvent::Begin { has_child: false, pid: None }), ShutdownAction::Release);
    let mut s = Shutdown::new(5);
    s.step(ShutdownEvent::Begin { has_child: true, pid: Some(1) });
    assert_eq!(s.step(ShutdownEvent::SignalFailed), ShutdownAction::Release);
    let mut s = Shutdown::new(5);
    assert_eq!(s.step(ShutdownEvent::Begin { has_child: true, pid: None }), ShutdownAction::Abandon);
    assert_eq!(s.step(ShutdownEvent::Exited), ShutdownAction::Ignore);
}

#[test]
fn shutdown_timeout_range_is_five_to_three_hundred() {
    assert!(!valid_shutdown_timeout(4));
    assert!(valid_shutdown_timeout(5));
    assert!(valid_shutdown_timeout(30));
    assert!(valid_shutdown_timeout(300));
    assert!(!valid_shutdown_timeout(301));
}

#[test]
fn shutdown_without_signals_kills_then_waits() {
    let mut s = Shutdown::without_signals(10);
    assert_eq!(s.step(ShutdownEvent::Begin { has_child: true, pid: None }), ShutdownAction::ForceKill);
    assert_eq!(s.step(ShutdownEvent::KillDone), ShutdownAction::WaitFor { secs: 10 });
    assert_eq!(s.step(ShutdownEvent::TimedOut), ShutdownAction::ForceKill);
    assert_eq!(s.step(ShutdownEvent::KillDone), ShutdownAction::Release);
    assert_eq!(s.phase(), ShutdownPhase::Finished);
}
